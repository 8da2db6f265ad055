//! The request handlers. A handler decides which statements to put to the
//! store and what to make of each reply; it never touches the store itself.
//! Whoever holds the store runs the statements and hands the replies back.

use crate::statement::{Reply, ReplyView, Statement, StatementView};
use crate::store::{Store, Tables, UserRowView};
use crate::user::{all_complete, all_decoded, record_views, user_views};
use crate::user::{User, UserRecord, UserRecordView, UserView};
use rgb::RGB8;
use vstd::prelude::*;

verus! {

/// One operation of the user interface.
#[derive(Debug, PartialEq, Eq)]
pub enum Operation {
    /// List every user.
    GetUsers,
    /// Get the user with identifier `id`.
    GetUser { id: u32 },
    /// Create `user`, and their colour where it is new.
    CreateUser { user: User },
    /// Delete the user with identifier `id`.
    DeleteUser { id: u32 },
}

/// An operation, over views.
pub enum OperationView {
    GetUsers,
    GetUser { id: u32 },
    CreateUser { user: UserView },
    DeleteUser { id: u32 },
}

impl View for Operation {
    type V = OperationView;

    open spec fn view(&self) -> OperationView {
        match self {
            Operation::GetUsers => OperationView::GetUsers,
            Operation::GetUser { id } => OperationView::GetUser { id: *id },
            Operation::CreateUser { user } => OperationView::CreateUser { user: user@ },
            Operation::DeleteUser { id } => OperationView::DeleteUser { id: *id },
        }
    }
}

/// What a successful operation answers.
#[derive(Debug, PartialEq, Eq)]
pub enum Outcome {
    /// The users that were listed.
    Users(Vec<User>),
    /// The user that was asked for.
    User(User),
    /// Nothing: the operation was carried out.
    Done,
}

/// An outcome, over views.
pub enum OutcomeView {
    Users(Seq<UserView>),
    User(UserView),
    Done,
}

impl View for Outcome {
    type V = OutcomeView;

    open spec fn view(&self) -> OutcomeView {
        match self {
            Outcome::Users(users) => OutcomeView::Users(user_views(users@)),
            Outcome::User(user) => OutcomeView::User(user@),
            Outcome::Done => OutcomeView::Done,
        }
    }
}

/// Why an operation failed.
#[derive(Clone, Copy, Debug, PartialEq, Eq)]
pub enum ApiError {
    /// The store refused a statement or could not run it.
    Query,
    /// No user has the identifier.
    NotFound,
    /// More than one user has the identifier.
    Ambiguous,
    /// A row holds a null where a value is needed.
    Decode,
    /// The colour of a new user is not in the store.
    NoSuchColor,
}

/// The result of an operation, over views.
pub open spec fn result_view(result: Result<Outcome, ApiError>) -> Result<OutcomeView, ApiError> {
    match result {
        Ok(outcome) => Ok(outcome@),
        Err(error) => Err(error),
    }
}

/// What a handler is waiting for, and what it keeps meanwhile.
#[derive(Debug, PartialEq, Eq)]
pub enum Pending {
    /// The rows of all users.
    Users,
    /// The rows of one user.
    User,
    /// The reply to the insertion of the colour of `user`.
    ColorInserted { user: User },
    /// The identifier of the colour of the user named `name`.
    ColorId { name: String },
    /// The reply to the insertion of the user.
    UserInserted,
    /// The reply to the removal of the user.
    Deleted,
}

/// What a handler is waiting for, over views.
pub enum PendingView {
    Users,
    User,
    ColorInserted { user: UserView },
    ColorId { name: Seq<char> },
    UserInserted,
    Deleted,
}

impl View for Pending {
    type V = PendingView;

    open spec fn view(&self) -> PendingView {
        match self {
            Pending::Users => PendingView::Users,
            Pending::User => PendingView::User,
            Pending::ColorInserted { user } => PendingView::ColorInserted { user: user@ },
            Pending::ColorId { name } => PendingView::ColorId { name: name@ },
            Pending::UserInserted => PendingView::UserInserted,
            Pending::Deleted => PendingView::Deleted,
        }
    }
}

impl PendingView {
    /// How many statements may still follow the one that is awaited.
    pub open spec fn rank(self) -> nat {
        match self {
            PendingView::ColorInserted { .. } => 2,
            PendingView::ColorId { .. } => 1,
            _ => 0,
        }
    }
}

/// What a handler does next.
#[derive(Debug, PartialEq, Eq)]
pub enum Step {
    /// Put `statement` to the store, and come back with the reply.
    Ask { statement: Statement, pending: Pending },
    /// The operation is over, with this result.
    Finish { result: Result<Outcome, ApiError> },
}

/// A step, over views.
pub enum StepView {
    Ask { statement: StatementView, pending: PendingView },
    Finish { result: Result<OutcomeView, ApiError> },
}

impl View for Step {
    type V = StepView;

    open spec fn view(&self) -> StepView {
        match self {
            Step::Ask { statement, pending } => StepView::Ask {
                statement: statement@,
                pending: pending@,
            },
            Step::Finish { result } => StepView::Finish { result: result_view(*result) },
        }
    }
}

impl StepView {
    /// How many statements the handler may still put to the store.
    pub open spec fn rank(self) -> nat {
        match self {
            StepView::Ask { pending, .. } => pending.rank() + 1,
            StepView::Finish { .. } => 0,
        }
    }
}

/// The first step of an operation: listing, getting and deleting each put
/// their one statement; creating starts with the insertion of the colour.
pub open spec fn first_step(operation: OperationView) -> StepView {
    match operation {
        OperationView::GetUsers => StepView::Ask {
            statement: StatementView::SelectUsers,
            pending: PendingView::Users,
        },
        OperationView::GetUser { id } => StepView::Ask {
            statement: StatementView::SelectUser { id },
            pending: PendingView::User,
        },
        OperationView::CreateUser { user } => StepView::Ask {
            statement: StatementView::InsertColor {
                r: user.color.r,
                g: user.color.g,
                b: user.color.b,
            },
            pending: PendingView::ColorInserted { user },
        },
        OperationView::DeleteUser { id } => StepView::Ask {
            statement: StatementView::DeleteUser { id },
            pending: PendingView::Deleted,
        },
    }
}

/// What listing makes of the rows: the users they decode to, or `Decode`
/// where a row is not complete.
pub open spec fn users_from(rows: Seq<UserRecordView>) -> Result<OutcomeView, ApiError> {
    if all_complete(rows) {
        Ok(OutcomeView::Users(all_decoded(rows)))
    } else {
        Err(ApiError::Decode)
    }
}

/// What getting makes of the rows: the user that the one row decodes to;
/// `NotFound` for no row, `Ambiguous` for several, `Decode` where the one
/// row is not complete.
pub open spec fn user_from(rows: Seq<UserRecordView>) -> Result<OutcomeView, ApiError> {
    if rows.len() == 0 {
        Err(ApiError::NotFound)
    } else if rows.len() > 1 {
        Err(ApiError::Ambiguous)
    } else if !rows[0].complete() {
        Err(ApiError::Decode)
    } else {
        Ok(OutcomeView::User(rows[0].decoded()))
    }
}

/// The step that follows the reply `reply` to the awaited statement.
///
/// - Listing and getting decode the rows they are given.
/// - Creating goes on to look the colour up whatever the reply to its
///   insertion was: a refusal means that the colour is there already. It
///   then inserts the user with the identifier of the first row; `NoSuchColor`
///   where there is no row, `Decode` where that identifier is null.
/// - Deleting fails with `NotFound` where no row was removed.
/// - A statement that failed, or a reply of another kind than the one
///   awaited, ends the operation with `Query`.
pub open spec fn next_step(pending: PendingView, reply: ReplyView) -> StepView {
    match pending {
        PendingView::Users => StepView::Finish {
            result: match reply {
                ReplyView::Users(rows) => users_from(rows),
                _ => Err(ApiError::Query),
            },
        },
        PendingView::User => StepView::Finish {
            result: match reply {
                ReplyView::Users(rows) => user_from(rows),
                _ => Err(ApiError::Query),
            },
        },
        PendingView::ColorInserted { user } => StepView::Ask {
            statement: StatementView::SelectColorId {
                r: user.color.r,
                g: user.color.g,
                b: user.color.b,
            },
            pending: PendingView::ColorId { name: user.name },
        },
        PendingView::ColorId { name } => match reply {
            ReplyView::ColorIds(rows) => if rows.len() == 0 {
                StepView::Finish { result: Err(ApiError::NoSuchColor) }
            } else {
                match rows[0] {
                    Some(color) => StepView::Ask {
                        statement: StatementView::InsertUser { name, color },
                        pending: PendingView::UserInserted,
                    },
                    None => StepView::Finish { result: Err(ApiError::Decode) },
                }
            },
            _ => StepView::Finish { result: Err(ApiError::Query) },
        },
        PendingView::UserInserted => StepView::Finish {
            result: match reply {
                ReplyView::Executed { .. } => Ok(OutcomeView::Done),
                _ => Err(ApiError::Query),
            },
        },
        PendingView::Deleted => StepView::Finish {
            result: match reply {
                ReplyView::Executed { rows_affected } => if rows_affected == 0 {
                    Err(ApiError::NotFound)
                } else {
                    Ok(OutcomeView::Done)
                },
                _ => Err(ApiError::Query),
            },
        },
    }
}

/// Decodes the rows of a listing.
pub fn decode_users(rows: Vec<UserRecord>) -> (result: Result<Outcome, ApiError>)
    ensures
        result_view(result) == users_from(record_views(rows@)),
{
    let ghost all = record_views(rows@);
    let mut users: Vec<User> = Vec::new();
    for record in it: rows.into_iter()
        invariant
            it.seq() == rows@,
            all == record_views(rows@),
            all_complete(all.take(it.index() as int)),
            user_views(users@) == all_decoded(all.take(it.index() as int)),
    {
        let ghost i = it.index() as int;
        assert(all[i] == record@);
        if !record.is_complete() {
            return Err(ApiError::Decode);
        }
        let ghost before = user_views(users@);
        let user = User::from(record);
        users.push(user);
        assert(user_views(users@) == before.push(user@));
        assert(all.take(i + 1) == all.take(i).push(all[i]));
    }
    assert(all.take(rows@.len() as int) == all);
    Ok(Outcome::Users(users))
}

/// Decodes the rows of a lookup of one user.
pub fn decode_user(rows: Vec<UserRecord>) -> (result: Result<Outcome, ApiError>)
    ensures
        result_view(result) == user_from(record_views(rows@)),
{
    let mut rows = rows;
    if rows.len() == 0 {
        return Err(ApiError::NotFound);
    }
    if rows.len() > 1 {
        return Err(ApiError::Ambiguous);
    }
    let record = rows.remove(0);
    if !record.is_complete() {
        return Err(ApiError::Decode);
    }
    Ok(Outcome::User(User::from(record)))
}

/// Begins an operation.
pub fn start(operation: Operation) -> (step: Step)
    ensures
        step@ == first_step(operation@),
{
    match operation {
        Operation::GetUsers => Step::Ask {
            statement: Statement::SelectUsers,
            pending: Pending::Users,
        },
        Operation::GetUser { id } => Step::Ask {
            statement: Statement::SelectUser { id },
            pending: Pending::User,
        },
        Operation::CreateUser { user } => Step::Ask {
            statement: Statement::InsertColor { r: user.color.r, g: user.color.g, b: user.color.b },
            pending: Pending::ColorInserted { user },
        },
        Operation::DeleteUser { id } => Step::Ask {
            statement: Statement::DeleteUser { id },
            pending: Pending::Deleted,
        },
    }
}

/// Takes an operation up again with the reply to the statement that it
/// awaited.
pub fn resume(pending: Pending, reply: Reply) -> (step: Step)
    ensures
        step@ == next_step(pending@, reply@),
        step@.rank() <= pending@.rank(),
{
    match pending {
        Pending::Users => Step::Finish {
            result: match reply {
                Reply::Users(rows) => decode_users(rows),
                _ => Err(ApiError::Query),
            },
        },
        Pending::User => Step::Finish {
            result: match reply {
                Reply::Users(rows) => decode_user(rows),
                _ => Err(ApiError::Query),
            },
        },
        Pending::ColorInserted { user } => Step::Ask {
            statement: Statement::SelectColorId {
                r: user.color.r,
                g: user.color.g,
                b: user.color.b,
            },
            pending: Pending::ColorId { name: user.name },
        },
        Pending::ColorId { name } => match reply {
            Reply::ColorIds(rows) => if rows.len() == 0 {
                Step::Finish { result: Err(ApiError::NoSuchColor) }
            } else {
                match rows[0] {
                    Some(color) => Step::Ask {
                        statement: Statement::InsertUser { name, color },
                        pending: Pending::UserInserted,
                    },
                    None => Step::Finish { result: Err(ApiError::Decode) },
                }
            },
            _ => Step::Finish { result: Err(ApiError::Query) },
        },
        Pending::UserInserted => Step::Finish {
            result: match reply {
                Reply::Executed { .. } => Ok(Outcome::Done),
                _ => Err(ApiError::Query),
            },
        },
        Pending::Deleted => Step::Finish {
            result: match reply {
                Reply::Executed { rows_affected } => if rows_affected == 0 {
                    Err(ApiError::NotFound)
                } else {
                    Ok(Outcome::Done)
                },
                _ => Err(ApiError::Query),
            },
        },
    }
}

/// Where the tables end up, and with which result, when a handler that is
/// at `step` is run against them to its end.
pub open spec fn finished(tables: Tables, step: StepView) -> (Tables, Result<OutcomeView, ApiError>)
    decreases step.rank(),
{
    match step {
        StepView::Finish { result } => (tables, result),
        StepView::Ask { statement, pending } => {
            let (after, reply) = tables.executed(statement);
            let next = next_step(pending, reply);
            if next.rank() < step.rank() {
                finished(after, next)
            } else {
                (after, Err(ApiError::Query))
            }
        },
    }
}

/// Where the tables end up, and with which result, when `operation` is
/// served from them.
pub open spec fn served(tables: Tables, operation: OperationView) -> (
    Tables,
    Result<OutcomeView, ApiError>,
) {
    finished(tables, first_step(operation))
}

/// Serves one operation from the store: runs its handler, statement by
/// statement, to the end.
pub fn serve(store: &mut Store, operation: Operation) -> (result: Result<Outcome, ApiError>)
    requires
        old(store)@.wf(),
    ensures
        final(store)@.wf(),
        (final(store)@, result_view(result)) == served(old(store)@, operation@),
{
    let mut step = start(operation);
    loop
        invariant
            store@.wf(),
            finished(store@, step@) == served(old(store)@, operation@),
        decreases step@.rank(),
    {
        match step {
            Step::Finish { result } => {
                return result;
            },
            Step::Ask { statement, pending } => {
                let reply = store.execute(statement);
                step = resume(pending, reply);
            },
        }
    }
}

impl Tables {
    /// The user that the row `row` stands for: its name, and the channels
    /// of the colour that it refers to.
    pub open spec fn user_of(self, row: UserRowView) -> UserView {
        let color = self.color_by_id(row.color);
        UserView { name: row.name, color: RGB8 { r: color.r, g: color.g, b: color.b } }
    }

    /// The users, in the table's order.
    pub open spec fn listed(self) -> Seq<UserView> {
        Seq::new(self.users.len(), |i: int| self.user_of(self.users[i]))
    }

    /// The user with identifier `id`, or `NotFound` where there is none.
    pub open spec fn found(self, id: int) -> Result<UserView, ApiError> {
        if self.has_user(id) {
            Ok(self.user_of(self.users[self.user_index(id)]))
        } else {
            Err(ApiError::NotFound)
        }
    }

    /// The tables once the colour `(r, g, b)` has been asked for: with a new
    /// row for it where it can be added, else as they were.
    pub open spec fn with_color(self, r: u8, g: u8, b: u8) -> Tables {
        if self.can_insert_color(r, g, b) {
            self.insert_color(r, g, b)
        } else {
            self
        }
    }

    /// The tables after `user` was created, and whether that went well.
    /// First the colour gets a row, unless it has one. Then the user gets a
    /// row that refers to the colour's row, under the next identifier. It
    /// fails with `NoSuchColor` where the colour is new and no colour
    /// identifier is left, and with `Query` where no user identifier is left;
    /// a colour row that was added before the failure stays.
    pub open spec fn created(self, user: UserView) -> (Tables, Result<(), ApiError>) {
        let color = user.color;
        let ready = self.with_color(color.r, color.g, color.b);
        if !ready.has_color(color.r, color.g, color.b) {
            (ready, Err(ApiError::NoSuchColor))
        } else if ready.next_userid == i64::MAX {
            (ready, Err(ApiError::Query))
        } else {
            let colorid = ready.colors[ready.color_index(color.r, color.g, color.b)].colorid;
            (ready.insert_user(user.name, colorid), Ok(()))
        }
    }

    /// The tables after the user with identifier `id` was deleted, and
    /// whether there was one: `NotFound` where there was none.
    pub open spec fn deleted(self, id: int) -> (Tables, Result<(), ApiError>) {
        if self.has_user(id) {
            (self.delete_user(id), Ok(()))
        } else {
            (self, Err(ApiError::NotFound))
        }
    }
}

/// What serving `operation` from `tables` comes to, said without steps.
pub open spec fn answered(tables: Tables, operation: OperationView) -> (
    Tables,
    Result<OutcomeView, ApiError>,
) {
    match operation {
        OperationView::GetUsers => (tables, Ok(OutcomeView::Users(tables.listed()))),
        OperationView::GetUser { id } => (
            tables,
            match tables.found(id as int) {
                Ok(user) => Ok(OutcomeView::User(user)),
                Err(error) => Err(error),
            },
        ),
        OperationView::CreateUser { user } => (
            tables.created(user).0,
            match tables.created(user).1 {
                Ok(_) => Ok(OutcomeView::Done),
                Err(error) => Err(error),
            },
        ),
        OperationView::DeleteUser { id } => (
            tables.deleted(id as int).0,
            match tables.deleted(id as int).1 {
                Ok(_) => Ok(OutcomeView::Done),
                Err(error) => Err(error),
            },
        ),
    }
}

proof fn joined_decodes(tables: Tables, row: UserRowView)
    ensures
        tables.joined(row).complete(),
        tables.joined(row).decoded() == tables.user_of(row),
{
}

/// Run against well-formed tables, the handlers come to what `answered`
/// says: no step of theirs fails but for want of an identifier.
pub proof fn served_is_answered(tables: Tables, operation: OperationView)
    requires
        tables.wf(),
    ensures
        served(tables, operation) == answered(tables, operation),
{
    reveal_with_fuel(finished, 4);
    match operation {
        OperationView::GetUsers => {
            let rows = tables.select_users();
            assert forall|i: int| 0 <= i < rows.len() implies (#[trigger] rows[i]).complete()
                && rows[i].decoded() == tables.user_of(tables.users[i]) by {
                joined_decodes(tables, tables.users[i]);
            }
            assert(all_decoded(rows) == tables.listed());
        },
        OperationView::GetUser { id } => {
            if tables.has_user(id as int) {
                joined_decodes(tables, tables.users[tables.user_index(id as int)]);
            }
        },
        OperationView::CreateUser { user } => {
            let color = user.color;
            let ready = tables.with_color(color.r, color.g, color.b);
            if tables.can_insert_color(color.r, color.g, color.b) {
                assert(ready.colors.last().is(color.r, color.g, color.b));
            }
            if ready.has_color(color.r, color.g, color.b) {
                let at = ready.color_index(color.r, color.g, color.b);
                assert(ready.has_colorid(ready.colors[at].colorid));
            }
        },
        OperationView::DeleteUser { id } => {},
    }
}

/// Lists every user.
pub fn get_users(store: &Store) -> (result: Result<Vec<User>, ApiError>)
    requires
        store@.wf(),
    ensures
        result is Ok,
        user_views(result->Ok_0@) == store@.listed(),
{
    proof {
        served_is_answered(store@, OperationView::GetUsers);
        reveal_with_fuel(finished, 2);
    }
    match decode_users(store.select_users()) {
        Ok(Outcome::Users(users)) => Ok(users),
        Ok(_) => unreached(),
        Err(error) => Err(error),
    }
}

/// Gets the user with identifier `id`; `NotFound` where there is none.
pub fn get_user(store: &Store, id: u32) -> (result: Result<User, ApiError>)
    requires
        store@.wf(),
    ensures
        match result {
            Ok(user) => store@.found(id as int) == Ok::<UserView, ApiError>(user@),
            Err(error) => store@.found(id as int) == Err::<UserView, ApiError>(error),
        },
{
    proof {
        served_is_answered(store@, OperationView::GetUser { id });
        reveal_with_fuel(finished, 2);
    }
    match decode_user(store.select_user(id)) {
        Ok(Outcome::User(user)) => Ok(user),
        Ok(_) => unreached(),
        Err(error) => Err(error),
    }
}

/// Creates `user`, and their colour where it is new.
pub fn create_user(store: &mut Store, user: User) -> (result: Result<(), ApiError>)
    requires
        old(store)@.wf(),
    ensures
        final(store)@.wf(),
        (final(store)@, result) == old(store)@.created(user@),
{
    proof {
        served_is_answered(store@, OperationView::CreateUser { user: user@ });
    }
    match serve(store, Operation::CreateUser { user }) {
        Ok(_) => Ok(()),
        Err(error) => Err(error),
    }
}

/// Deletes the user with identifier `id`; `NotFound` where there is none.
pub fn delete_user(store: &mut Store, id: u32) -> (result: Result<(), ApiError>)
    requires
        old(store)@.wf(),
    ensures
        final(store)@.wf(),
        (final(store)@, result) == old(store)@.deleted(id as int),
        result is Err <==> !old(store)@.has_user(id as int),
{
    proof {
        served_is_answered(store@, OperationView::DeleteUser { id });
    }
    match serve(store, Operation::DeleteUser { id }) {
        Ok(_) => Ok(()),
        Err(error) => Err(error),
    }
}

} // verus!
