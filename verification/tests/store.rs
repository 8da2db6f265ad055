use user_colors::statement::{Reply, Statement};
use user_colors::store::{ColorRow, Store, UserRow};
use user_colors::UserRecord;

#[test]
fn a_new_store_is_empty() {
    let store = Store::new();
    assert!(store.colors().is_empty());
    assert!(store.users().is_empty());
    assert!(store.select_users().is_empty());
}

#[test]
fn a_colour_triple_gets_one_row() {
    let mut store = Store::new();
    assert!(store.insert_color(1, 2, 3));
    assert!(!store.insert_color(1, 2, 3));
    assert!(store.insert_color(3, 2, 1));
    assert_eq!(
        store.colors(),
        &vec![
            ColorRow { colorid: 1, r: 1, g: 2, b: 3 },
            ColorRow { colorid: 2, r: 3, g: 2, b: 1 },
        ]
    );
    assert_eq!(store.select_colorid(1, 2, 3), vec![Some(1)]);
    assert_eq!(store.select_colorid(3, 2, 1), vec![Some(2)]);
    assert_eq!(store.select_colorid(1, 2, 4), Vec::<Option<i64>>::new());
}

#[test]
fn a_user_needs_a_colour_that_is_there() {
    let mut store = Store::new();
    assert!(!store.insert_user("Ada".to_string(), 1));
    assert!(store.insert_color(9, 8, 7));
    assert!(!store.insert_user("Ada".to_string(), 2));
    assert!(store.insert_user("Ada".to_string(), 1));
    assert_eq!(
        store.users(),
        &vec![UserRow { userid: 1, name: "Ada".to_string(), color: 1 }]
    );
}

#[test]
fn selections_join_users_with_colours() {
    let mut store = Store::new();
    store.insert_color(10, 20, 30);
    store.insert_color(0, 0, 255);
    store.insert_user("Ada".to_string(), 2);
    store.insert_user("Bob".to_string(), 1);
    let ada = UserRecord { name: Some("Ada".to_string()), r: Some(0), g: Some(0), b: Some(255) };
    let bob = UserRecord { name: Some("Bob".to_string()), r: Some(10), g: Some(20), b: Some(30) };
    assert_eq!(store.select_user(1), vec![copy(&ada)]);
    assert_eq!(store.select_user(2), vec![copy(&bob)]);
    assert!(store.select_user(3).is_empty());
    assert_eq!(store.select_users(), vec![ada, bob]);
}

fn copy(record: &UserRecord) -> UserRecord {
    UserRecord { name: record.name.clone(), r: record.r, g: record.g, b: record.b }
}

#[test]
fn deleting_counts_the_rows_and_frees_no_identifier() {
    let mut store = Store::new();
    store.insert_color(1, 1, 1);
    store.insert_user("a".to_string(), 1);
    store.insert_user("b".to_string(), 1);
    assert_eq!(store.delete_user(2), 1);
    assert_eq!(store.delete_user(2), 0);
    assert_eq!(store.delete_user(9), 0);
    assert!(store.insert_user("c".to_string(), 1));
    assert_eq!(
        store.users(),
        &vec![
            UserRow { userid: 1, name: "a".to_string(), color: 1 },
            UserRow { userid: 3, name: "c".to_string(), color: 1 },
        ]
    );
    assert_eq!(store.colors().len(), 1);
}

#[test]
fn execute_replies_to_each_statement() {
    let mut store = Store::new();
    assert_eq!(
        store.execute(Statement::InsertColor { r: 1, g: 2, b: 3 }),
        Reply::Executed { rows_affected: 1 }
    );
    assert_eq!(store.execute(Statement::InsertColor { r: 1, g: 2, b: 3 }), Reply::Failed);
    assert_eq!(
        store.execute(Statement::SelectColorId { r: 1, g: 2, b: 3 }),
        Reply::ColorIds(vec![Some(1)])
    );
    assert_eq!(
        store.execute(Statement::InsertUser { name: "Ada".to_string(), color: 5 }),
        Reply::Failed
    );
    assert_eq!(
        store.execute(Statement::InsertUser { name: "Ada".to_string(), color: 1 }),
        Reply::Executed { rows_affected: 1 }
    );
    let ada = UserRecord { name: Some("Ada".to_string()), r: Some(1), g: Some(2), b: Some(3) };
    assert_eq!(store.execute(Statement::SelectUsers), Reply::Users(vec![copy(&ada)]));
    assert_eq!(store.execute(Statement::SelectUser { id: 1 }), Reply::Users(vec![ada]));
    assert_eq!(store.execute(Statement::SelectUser { id: 2 }), Reply::Users(vec![]));
    assert_eq!(
        store.execute(Statement::DeleteUser { id: 2 }),
        Reply::Executed { rows_affected: 0 }
    );
    assert_eq!(
        store.execute(Statement::DeleteUser { id: 1 }),
        Reply::Executed { rows_affected: 1 }
    );
    assert_eq!(store.execute(Statement::SelectUsers), Reply::Users(vec![]));
}

#[test]
fn statements_in_sql() {
    assert_eq!(
        Statement::InsertColor { r: 0, g: 0, b: 0 }.sql(),
        "INSERT INTO colors(r, g, b) VALUES(?, ?, ?);"
    );
    assert_eq!(
        Statement::SelectColorId { r: 0, g: 0, b: 0 }.sql(),
        "SELECT colorid FROM colors WHERE r = ? AND g = ? AND b = ?;"
    );
    assert_eq!(
        Statement::InsertUser { name: String::new(), color: 1 }.sql(),
        "INSERT INTO users(name, color) VALUES(?, ?);"
    );
    assert_eq!(
        Statement::SelectUsers.sql(),
        "SELECT name, r, g, b FROM users INNER JOIN colors ON colors.colorid = users.color"
    );
    assert_eq!(
        Statement::SelectUser { id: 1 }.sql(),
        "SELECT name, r, g, b FROM users INNER JOIN colors ON colors.colorid = users.color WHERE userid = ?"
    );
    assert_eq!(Statement::DeleteUser { id: 1 }.sql(), "DELETE FROM users WHERE userid = ?");
}
