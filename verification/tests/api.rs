use rgb::RGB8;
use user_colors::api::{
    decode_user, decode_users, resume, serve, start, ApiError, Operation, Outcome, Pending, Step,
};
use user_colors::statement::{Reply, Statement};
use user_colors::store::{ColorRow, Store, UserRow};
use user_colors::{create_user, delete_user, get_user, get_users, User, UserRecord};

fn user(name: &str, r: u8, g: u8, b: u8) -> User {
    User { name: name.to_string(), color: RGB8 { r, g, b } }
}

fn record(name: &str, r: i64, g: i64, b: i64) -> UserRecord {
    UserRecord { name: Some(name.to_string()), r: Some(r), g: Some(g), b: Some(b) }
}

#[test]
fn a_created_user_is_found_by_its_identifier() {
    let mut store = Store::new();
    let inputs = [("Ada", 0u8, 0u8, 0u8), ("Bob", 255, 255, 255), ("", 1, 2, 3), ("Ada", 3, 2, 1)];
    for (n, (name, r, g, b)) in inputs.into_iter().enumerate() {
        assert_eq!(create_user(&mut store, user(name, r, g, b)), Ok(()));
        let id = store.users().last().unwrap().userid;
        assert_eq!(id, n as i64 + 1);
        assert_eq!(get_user(&store, id as u32), Ok(user(name, r, g, b)));
    }
    assert_eq!(get_user(&store, 1), Ok(user("Ada", 0, 0, 0)));
    assert_eq!(get_user(&store, 4), Ok(user("Ada", 3, 2, 1)));
}

#[test]
fn two_users_of_one_colour_share_its_row() {
    let mut store = Store::new();
    assert_eq!(create_user(&mut store, user("Ada", 10, 20, 30)), Ok(()));
    assert_eq!(create_user(&mut store, user("Bob", 10, 20, 30)), Ok(()));
    assert_eq!(store.colors(), &vec![ColorRow { colorid: 1, r: 10, g: 20, b: 30 }]);
    assert_eq!(
        store.users(),
        &vec![
            UserRow { userid: 1, name: "Ada".to_string(), color: 1 },
            UserRow { userid: 2, name: "Bob".to_string(), color: 1 },
        ]
    );
    assert_eq!(create_user(&mut store, user("Cy", 10, 20, 31)), Ok(()));
    assert_eq!(store.colors().len(), 2);
    assert_eq!(store.users()[2].color, 2);
}

#[test]
fn a_deleted_user_is_not_listed_and_its_colour_stays() {
    let mut store = Store::new();
    create_user(&mut store, user("Ada", 1, 1, 1)).unwrap();
    create_user(&mut store, user("Bob", 2, 2, 2)).unwrap();
    create_user(&mut store, user("Cy", 3, 3, 3)).unwrap();
    assert_eq!(delete_user(&mut store, 2), Ok(()));
    assert_eq!(
        get_users(&store),
        Ok(vec![user("Ada", 1, 1, 1), user("Cy", 3, 3, 3)])
    );
    assert_eq!(get_user(&store, 2), Err(ApiError::NotFound));
    assert_eq!(store.colors().len(), 3);
    assert_eq!(store.colors()[1], ColorRow { colorid: 2, r: 2, g: 2, b: 2 });
    assert_eq!(store.select_colorid(2, 2, 2), vec![Some(2)]);
}

#[test]
fn deleting_what_is_not_there_is_not_found() {
    let mut store = Store::new();
    assert_eq!(delete_user(&mut store, 1), Err(ApiError::NotFound));
    create_user(&mut store, user("Ada", 1, 1, 1)).unwrap();
    assert_eq!(delete_user(&mut store, 0), Err(ApiError::NotFound));
    assert_eq!(delete_user(&mut store, 2), Err(ApiError::NotFound));
    assert_eq!(delete_user(&mut store, u32::MAX), Err(ApiError::NotFound));
    assert_eq!(store.users().len(), 1);
    assert_eq!(delete_user(&mut store, 1), Ok(()));
    assert_eq!(delete_user(&mut store, 1), Err(ApiError::NotFound));
}

#[test]
fn listing_an_empty_store() {
    let mut store = Store::new();
    assert_eq!(get_users(&store), Ok(vec![]));
    assert_eq!(get_user(&store, 1), Err(ApiError::NotFound));
}

#[test]
fn serve_answers_in_kind() {
    let mut store = Store::new();
    assert_eq!(
        serve(&mut store, Operation::CreateUser { user: user("Ada", 1, 2, 3) }),
        Ok(Outcome::Done)
    );
    assert_eq!(
        serve(&mut store, Operation::GetUsers),
        Ok(Outcome::Users(vec![user("Ada", 1, 2, 3)]))
    );
    assert_eq!(
        serve(&mut store, Operation::GetUser { id: 1 }),
        Ok(Outcome::User(user("Ada", 1, 2, 3)))
    );
    assert_eq!(serve(&mut store, Operation::DeleteUser { id: 1 }), Ok(Outcome::Done));
    assert_eq!(
        serve(&mut store, Operation::DeleteUser { id: 1 }),
        Err(ApiError::NotFound)
    );
}

#[test]
fn each_operation_starts_with_its_statement() {
    assert_eq!(
        start(Operation::GetUsers),
        Step::Ask { statement: Statement::SelectUsers, pending: Pending::Users }
    );
    assert_eq!(
        start(Operation::GetUser { id: 7 }),
        Step::Ask { statement: Statement::SelectUser { id: 7 }, pending: Pending::User }
    );
    assert_eq!(
        start(Operation::DeleteUser { id: 7 }),
        Step::Ask { statement: Statement::DeleteUser { id: 7 }, pending: Pending::Deleted }
    );
    assert_eq!(
        start(Operation::CreateUser { user: user("Ada", 1, 2, 3) }),
        Step::Ask {
            statement: Statement::InsertColor { r: 1, g: 2, b: 3 },
            pending: Pending::ColorInserted { user: user("Ada", 1, 2, 3) },
        }
    );
}

#[test]
fn creating_goes_on_whatever_the_colour_insertion_gave() {
    for reply in [Reply::Failed, Reply::Executed { rows_affected: 1 }, Reply::Users(vec![])] {
        assert_eq!(
            resume(Pending::ColorInserted { user: user("Ada", 1, 2, 3) }, reply),
            Step::Ask {
                statement: Statement::SelectColorId { r: 1, g: 2, b: 3 },
                pending: Pending::ColorId { name: "Ada".to_string() },
            }
        );
    }
}

#[test]
fn creating_inserts_the_user_with_the_first_identifier() {
    let pending = || Pending::ColorId { name: "Ada".to_string() };
    assert_eq!(
        resume(pending(), Reply::ColorIds(vec![Some(42), Some(43)])),
        Step::Ask {
            statement: Statement::InsertUser { name: "Ada".to_string(), color: 42 },
            pending: Pending::UserInserted,
        }
    );
    assert_eq!(
        resume(pending(), Reply::ColorIds(vec![])),
        Step::Finish { result: Err(ApiError::NoSuchColor) }
    );
    assert_eq!(
        resume(pending(), Reply::ColorIds(vec![None, Some(1)])),
        Step::Finish { result: Err(ApiError::Decode) }
    );
    assert_eq!(resume(pending(), Reply::Failed), Step::Finish { result: Err(ApiError::Query) });
    assert_eq!(
        resume(Pending::UserInserted, Reply::Executed { rows_affected: 1 }),
        Step::Finish { result: Ok(Outcome::Done) }
    );
    assert_eq!(
        resume(Pending::UserInserted, Reply::Failed),
        Step::Finish { result: Err(ApiError::Query) }
    );
}

#[test]
fn deleting_fails_where_no_row_went() {
    assert_eq!(
        resume(Pending::Deleted, Reply::Executed { rows_affected: 0 }),
        Step::Finish { result: Err(ApiError::NotFound) }
    );
    assert_eq!(
        resume(Pending::Deleted, Reply::Executed { rows_affected: 1 }),
        Step::Finish { result: Ok(Outcome::Done) }
    );
    assert_eq!(
        resume(Pending::Deleted, Reply::Failed),
        Step::Finish { result: Err(ApiError::Query) }
    );
    assert_eq!(
        resume(Pending::Deleted, Reply::ColorIds(vec![])),
        Step::Finish { result: Err(ApiError::Query) }
    );
}

#[test]
fn getting_wants_exactly_one_row() {
    assert_eq!(decode_user(vec![]), Err(ApiError::NotFound));
    assert_eq!(
        decode_user(vec![record("Ada", 1, 2, 3), record("Ada", 1, 2, 3)]),
        Err(ApiError::Ambiguous)
    );
    assert_eq!(
        decode_user(vec![UserRecord { name: None, r: Some(1), g: Some(2), b: Some(3) }]),
        Err(ApiError::Decode)
    );
    assert_eq!(
        decode_user(vec![record("Ada", 1, 2, 3)]),
        Ok(Outcome::User(user("Ada", 1, 2, 3)))
    );
    assert_eq!(
        resume(Pending::User, Reply::Users(vec![record("Ada", 1, 2, 3)])),
        Step::Finish { result: Ok(Outcome::User(user("Ada", 1, 2, 3))) }
    );
    assert_eq!(resume(Pending::User, Reply::Failed), Step::Finish { result: Err(ApiError::Query) });
}

#[test]
fn listing_decodes_every_row_or_none() {
    assert_eq!(decode_users(vec![]), Ok(Outcome::Users(vec![])));
    assert_eq!(
        decode_users(vec![record("Ada", 1, 2, 3), record("Bob", 256, -1, 255)]),
        Ok(Outcome::Users(vec![user("Ada", 1, 2, 3), user("Bob", 0, 255, 255)]))
    );
    assert_eq!(
        decode_users(vec![
            record("Ada", 1, 2, 3),
            UserRecord { name: Some("Bob".to_string()), r: Some(1), g: None, b: Some(3) },
        ]),
        Err(ApiError::Decode)
    );
    assert_eq!(
        resume(Pending::Users, Reply::Executed { rows_affected: 0 }),
        Step::Finish { result: Err(ApiError::Query) }
    );
}
