//! The statements that the handlers put to the store, and the store's
//! replies.

use crate::user::{record_views, UserRecord, UserRecordView};
use vstd::prelude::*;

verus! {

/// One statement put to the store.
#[derive(Debug, PartialEq, Eq)]
pub enum Statement {
    /// Add a colour; refused where the triple is already there.
    InsertColor { r: u8, g: u8, b: u8 },
    /// The identifiers of the colours with this triple.
    SelectColorId { r: u8, g: u8, b: u8 },
    /// Add a user who refers to the colour `color`.
    InsertUser { name: String, color: i64 },
    /// Every user, joined with their colour.
    SelectUsers,
    /// The users with identifier `id`, joined with their colour.
    SelectUser { id: u32 },
    /// Remove the users with identifier `id`.
    DeleteUser { id: u32 },
}

/// A statement, with text as sequences of characters.
pub enum StatementView {
    InsertColor { r: u8, g: u8, b: u8 },
    SelectColorId { r: u8, g: u8, b: u8 },
    InsertUser { name: Seq<char>, color: i64 },
    SelectUsers,
    SelectUser { id: u32 },
    DeleteUser { id: u32 },
}

impl View for Statement {
    type V = StatementView;

    open spec fn view(&self) -> StatementView {
        match self {
            Statement::InsertColor { r, g, b } => StatementView::InsertColor {
                r: *r,
                g: *g,
                b: *b,
            },
            Statement::SelectColorId { r, g, b } => StatementView::SelectColorId {
                r: *r,
                g: *g,
                b: *b,
            },
            Statement::InsertUser { name, color } => StatementView::InsertUser {
                name: name@,
                color: *color,
            },
            Statement::SelectUsers => StatementView::SelectUsers,
            Statement::SelectUser { id } => StatementView::SelectUser { id: *id },
            Statement::DeleteUser { id } => StatementView::DeleteUser { id: *id },
        }
    }
}

impl StatementView {
    /// The statement in SQL, with `?` for each value that it carries, in the
    /// order of its fields.
    pub open spec fn sql(self) -> Seq<char> {
        match self {
            StatementView::InsertColor { .. } => "INSERT INTO colors(r, g, b) VALUES(?, ?, ?);"@,
            StatementView::SelectColorId { .. } =>
                "SELECT colorid FROM colors WHERE r = ? AND g = ? AND b = ?;"@,
            StatementView::InsertUser { .. } => "INSERT INTO users(name, color) VALUES(?, ?);"@,
            StatementView::SelectUsers =>
                "SELECT name, r, g, b FROM users INNER JOIN colors ON colors.colorid = users.color"@,
            StatementView::SelectUser { .. } =>
                "SELECT name, r, g, b FROM users INNER JOIN colors ON colors.colorid = users.color WHERE userid = ?"@,
            StatementView::DeleteUser { .. } => "DELETE FROM users WHERE userid = ?"@,
        }
    }
}

impl Statement {
    /// The statement in SQL.
    pub fn sql(&self) -> (text: &'static str)
        ensures
            text@ == self@.sql(),
    {
        match self {
            Statement::InsertColor { .. } => "INSERT INTO colors(r, g, b) VALUES(?, ?, ?);",
            Statement::SelectColorId { .. } =>
                "SELECT colorid FROM colors WHERE r = ? AND g = ? AND b = ?;",
            Statement::InsertUser { .. } => "INSERT INTO users(name, color) VALUES(?, ?);",
            Statement::SelectUsers =>
                "SELECT name, r, g, b FROM users INNER JOIN colors ON colors.colorid = users.color",
            Statement::SelectUser { .. } =>
                "SELECT name, r, g, b FROM users INNER JOIN colors ON colors.colorid = users.color WHERE userid = ?",
            Statement::DeleteUser { .. } => "DELETE FROM users WHERE userid = ?",
        }
    }
}

/// What the store answers to one statement.
#[derive(Debug, PartialEq, Eq)]
pub enum Reply {
    /// The statement was refused or could not be run.
    Failed,
    /// An insertion or a removal was carried out on `rows_affected` rows.
    Executed { rows_affected: u64 },
    /// The rows of a selection of colour identifiers.
    ColorIds(Vec<Option<i64>>),
    /// The rows of a selection of users.
    Users(Vec<UserRecord>),
}

/// A reply, with its rows as sequences.
pub enum ReplyView {
    Failed,
    Executed { rows_affected: u64 },
    ColorIds(Seq<Option<i64>>),
    Users(Seq<UserRecordView>),
}

impl View for Reply {
    type V = ReplyView;

    open spec fn view(&self) -> ReplyView {
        match self {
            Reply::Failed => ReplyView::Failed,
            Reply::Executed { rows_affected } => ReplyView::Executed {
                rows_affected: *rows_affected,
            },
            Reply::ColorIds(rows) => ReplyView::ColorIds(rows@),
            Reply::Users(rows) => ReplyView::Users(record_views(rows@)),
        }
    }
}

} // verus!
