//! What holds of the operations taken together.

use crate::api::{answered, ApiError, OperationView};
use crate::statement::StatementView;
use crate::store::{Tables, UserRowView};
use crate::user::UserView;
use vstd::prelude::*;

verus! {

proof fn insert_color_keeps_wf(tables: Tables, r: u8, g: u8, b: u8)
    requires
        tables.wf(),
        tables.can_insert_color(r, g, b),
    ensures
        tables.insert_color(r, g, b).wf(),
{
    let after = tables.insert_color(r, g, b);
    assert forall|i: int| 0 <= i < after.users.len() implies after.has_colorid(
        (#[trigger] after.users[i]).color,
    ) by {
        let c = tables.users[i].color;
        assert(tables.has_colorid(c));
        let k = choose|k: int|
            0 <= k < tables.colors.len() && (#[trigger] tables.colors[k]).colorid == c;
        assert(after.colors[k].colorid == c);
    }
}

proof fn insert_user_keeps_wf(tables: Tables, name: Seq<char>, color: i64)
    requires
        tables.wf(),
        tables.can_insert_user(color),
    ensures
        tables.insert_user(name, color).wf(),
{
    let after = tables.insert_user(name, color);
    assert forall|i: int| 0 <= i < after.users.len() implies after.has_colorid(
        (#[trigger] after.users[i]).color,
    ) by {
        let c = after.users[i].color;
        assert(tables.has_colorid(c)) by {
            if i < tables.users.len() {
                assert(tables.users[i].color == c);
            }
        }
        let k = choose|k: int|
            0 <= k < tables.colors.len() && (#[trigger] tables.colors[k]).colorid == c;
        assert(after.colors[k].colorid == c);
    }
}

proof fn delete_user_keeps_wf(tables: Tables, id: int)
    requires
        tables.wf(),
    ensures
        tables.delete_user(id).wf(),
        !tables.delete_user(id).has_user(id),
{
    if tables.has_user(id) {
        let at = tables.user_index(id);
        let after = tables.delete_user(id);
        assert forall|k: int| 0 <= k < after.users.len() implies after.has_colorid(
            (#[trigger] after.users[k]).color,
        ) && after.users[k].userid != id by {
            let from = if k < at {
                k
            } else {
                k + 1
            };
            let c = tables.users[from].color;
            assert(tables.has_colorid(c));
            let i = choose|i: int|
                0 <= i < tables.colors.len() && (#[trigger] tables.colors[i]).colorid == c;
            assert(after.colors[i].colorid == c);
            assert(tables.users[at].userid == id);
        }
    }
}

/// In well-formed tables the colour row of a triple is the row of its
/// identifier.
proof fn color_row_by_id(tables: Tables, r: u8, g: u8, b: u8)
    requires
        tables.wf(),
        tables.has_color(r, g, b),
    ensures
        tables.has_colorid(tables.colors[tables.color_index(r, g, b)].colorid),
        tables.color_by_id(tables.colors[tables.color_index(r, g, b)].colorid).is(r, g, b),
{
    let at = tables.color_index(r, g, b);
    let id = tables.colors[at].colorid;
    let k = choose|k: int|
        0 <= k < tables.colors.len() && (#[trigger] tables.colors[k]).colorid == id;
    assert(tables.colors[k].colorid == id);
    assert(k == at);
}

/// Well-formed tables stay well formed under every statement, and so under
/// the statements of any handlers in whatever order they reach the store:
/// no user ever refers to a colour that is not there.
pub proof fn statements_keep_tables_well_formed(tables: Tables, statement: StatementView)
    requires
        tables.wf(),
    ensures
        tables.executed(statement).0.wf(),
{
    match statement {
        StatementView::InsertColor { r, g, b } => {
            if tables.can_insert_color(r, g, b) {
                insert_color_keeps_wf(tables, r, g, b);
            }
        },
        StatementView::InsertUser { name, color } => {
            if tables.can_insert_user(color) {
                insert_user_keeps_wf(tables, name, color);
            }
        },
        StatementView::DeleteUser { id } => {
            delete_user_keeps_wf(tables, id as int);
        },
        _ => {},
    }
}

/// No statement removes or changes a colour row: the colour table only
/// grows, at its end. So a colour that is there is still there after any
/// statement, under the identifier it had: a handler that looks a colour up
/// finds it whatever other handlers did meanwhile.
pub proof fn statements_keep_colors(
    tables: Tables,
    statement: StatementView,
    r: u8,
    g: u8,
    b: u8,
)
    requires
        tables.wf(),
    ensures
        tables.colors.is_prefix_of(tables.executed(statement).0.colors),
        tables.has_color(r, g, b) ==> tables.executed(statement).0.select_colorid(r, g, b)
            == tables.select_colorid(r, g, b),
{
    let after = tables.executed(statement).0;
    statements_keep_tables_well_formed(tables, statement);
    assert(tables.colors.is_prefix_of(after.colors)) by {
        assert(after.colors == tables.colors || after.colors == tables.colors.push(
            after.colors.last(),
        ));
    }
    if tables.has_color(r, g, b) {
        let at = tables.color_index(r, g, b);
        assert(after.colors[at] == tables.colors[at]);
        assert(after.colors[at].is(r, g, b));
        let now = after.color_index(r, g, b);
        let (old_row, new_row) = (after.colors[at], after.colors[now]);
        if now < at {
            assert(!new_row.is(old_row.r, old_row.g, old_row.b));
        }
        if at < now {
            assert(!old_row.is(new_row.r, new_row.g, new_row.b));
        }
    }
}

/// Well-formed tables stay well formed under every operation: identifiers
/// stay unique, no colour triple gets a second row, and every user keeps a
/// colour that is there.
pub proof fn operations_keep_tables_well_formed(tables: Tables, operation: OperationView)
    requires
        tables.wf(),
    ensures
        answered(tables, operation).0.wf(),
{
    match operation {
        OperationView::CreateUser { user } => {
            let color = user.color;
            let ready = tables.with_color(color.r, color.g, color.b);
            if tables.can_insert_color(color.r, color.g, color.b) {
                insert_color_keeps_wf(tables, color.r, color.g, color.b);
            }
            if ready.has_color(color.r, color.g, color.b) && ready.next_userid < i64::MAX {
                color_row_by_id(ready, color.r, color.g, color.b);
                let colorid = ready.colors[ready.color_index(color.r, color.g, color.b)].colorid;
                insert_user_keeps_wf(ready, user.name, colorid);
            }
        },
        OperationView::DeleteUser { id } => {
            delete_user_keeps_wf(tables, id as int);
        },
        _ => {},
    }
}

/// A user that was created is found under the identifier that the tables
/// had next, with the name and the channels it was created with; and no
/// user had that identifier before.
pub proof fn created_user_is_found(tables: Tables, user: UserView)
    requires
        tables.wf(),
    ensures
        !tables.has_user(tables.next_userid as int),
        tables.created(user).1 is Ok ==> tables.created(user).0.found(tables.next_userid as int)
            == Ok::<UserView, ApiError>(user),
{
    if tables.has_user(tables.next_userid as int) {
        let k = tables.user_index(tables.next_userid as int);
        assert(tables.users[k].userid < tables.next_userid);
    }
    if tables.created(user).1 is Ok {
        let color = user.color;
        let ready = tables.with_color(color.r, color.g, color.b);
        let after = tables.created(user).0;
        let id = tables.next_userid as int;
        operations_keep_tables_well_formed(tables, OperationView::CreateUser { user });
        if tables.can_insert_color(color.r, color.g, color.b) {
            insert_color_keeps_wf(tables, color.r, color.g, color.b);
        }
        color_row_by_id(ready, color.r, color.g, color.b);
        let colorid = ready.colors[ready.color_index(color.r, color.g, color.b)].colorid;
        let last = after.users.len() - 1;
        assert(after.users[last].userid == id);
        let at = after.user_index(id);
        assert(after.users[at].userid == id);
        assert(at == last);
        assert(after.colors == ready.colors);
        assert(after.color_by_id(colorid) == ready.color_by_id(colorid));
    }
}

/// Two users created one after the other with the same colour share one
/// colour row: after both, exactly one row holds the triple, the second
/// creation has added no colour row, and the two new user rows, which are
/// the last two, both refer to that row.
pub proof fn same_color_is_stored_once(tables: Tables, first: UserView, second: UserView)
    requires
        tables.wf(),
        first.color == second.color,
    ensures
        ({
            let color = first.color;
            let between = tables.created(first).0;
            let after = between.created(second).0;
            tables.created(first).1 is Ok && between.created(second).1 is Ok ==> {
                &&& after.has_color(color.r, color.g, color.b)
                &&& forall|i: int, j: int|
                    0 <= i < after.colors.len() && 0 <= j < after.colors.len() && (
                    #[trigger] after.colors[i]).is(color.r, color.g, color.b) && (
                    #[trigger] after.colors[j]).is(color.r, color.g, color.b) ==> i == j
                &&& after.colors == between.colors
                &&& after.users == tables.users.push(
                    UserRowView {
                        userid: tables.next_userid,
                        name: first.name,
                        color: after.colors[after.color_index(color.r, color.g, color.b)].colorid,
                    },
                ).push(
                    UserRowView {
                        userid: between.next_userid,
                        name: second.name,
                        color: after.colors[after.color_index(color.r, color.g, color.b)].colorid,
                    },
                )
            }
        }),
{
    let color = first.color;
    let between = tables.created(first).0;
    let after = between.created(second).0;
    if tables.created(first).1 is Ok && between.created(second).1 is Ok {
        operations_keep_tables_well_formed(tables, OperationView::CreateUser { user: first });
        operations_keep_tables_well_formed(between, OperationView::CreateUser { user: second });
        let ready = tables.with_color(color.r, color.g, color.b);
        assert(between.colors == ready.colors);
        assert(ready.has_color(color.r, color.g, color.b));
        let at = ready.color_index(color.r, color.g, color.b);
        assert(between.colors[at].is(color.r, color.g, color.b));
        assert(between.has_color(color.r, color.g, color.b));
        assert(after.colors == between.colors);
        assert(after.colors[at].is(color.r, color.g, color.b));
        assert forall|i: int, j: int|
            0 <= i < after.colors.len() && 0 <= j < after.colors.len() && (
            #[trigger] after.colors[i]).is(color.r, color.g, color.b) && (
            #[trigger] after.colors[j]).is(color.r, color.g, color.b) implies i == j by {
            let (one, other) = (after.colors[i], after.colors[j]);
            if i < j {
                assert(!one.is(other.r, other.g, other.b));
            }
            if j < i {
                assert(!other.is(one.r, one.g, one.b));
            }
        }
        assert(after.color_index(color.r, color.g, color.b) == at);
        assert(between.color_index(color.r, color.g, color.b) == at);
    }
}

/// A user that was deleted is no longer there, and the list of users is
/// the list as it was without that one entry; the colour table is as it
/// was, whether or not another user still refers to the colour. Where no
/// user has the identifier, the deletion fails with `NotFound` and nothing
/// changes.
pub proof fn deleted_user_is_gone(tables: Tables, id: int)
    requires
        tables.wf(),
    ensures
        !tables.deleted(id).0.has_user(id),
        tables.deleted(id).0.colors == tables.colors,
        tables.has_user(id) ==> tables.deleted(id).1 is Ok && tables.deleted(id).0.listed()
            == tables.listed().remove(tables.user_index(id)),
        !tables.has_user(id) ==> tables.deleted(id).1 == Err::<(), ApiError>(ApiError::NotFound)
            && tables.deleted(id).0 == tables,
{
    delete_user_keeps_wf(tables, id);
    if tables.has_user(id) {
        let after = tables.deleted(id).0;
        let at = tables.user_index(id);
        assert forall|k: int| 0 <= k < after.users.len() implies after.user_of(after.users[k])
            == tables.listed().remove(at)[k] by {
            assert(after.color_by_id(after.users[k].color) == tables.color_by_id(
                after.users[k].color,
            ));
        }
        assert(after.listed() =~= tables.listed().remove(at));
    }
}

} // verus!
