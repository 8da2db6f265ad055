//! Users and the rows they are decoded from.

use rgb::RGB8;
use vstd::prelude::*;

verus! {

/// A user as the service hands it out: a name and a colour.
#[derive(Debug, PartialEq, Eq)]
pub struct User {
    pub name: String,
    pub color: RGB8,
}

/// What a user is, with the name as a sequence of characters.
pub struct UserView {
    pub name: Seq<char>,
    pub color: RGB8,
}

impl View for User {
    type V = UserView;

    open spec fn view(&self) -> UserView {
        UserView { name: self.name@, color: self.color }
    }
}

/// One row of the join of users with their colours, every column nullable.
#[derive(Debug, PartialEq, Eq)]
pub struct UserRecord {
    pub name: Option<String>,
    pub r: Option<i64>,
    pub g: Option<i64>,
    pub b: Option<i64>,
}

/// A joined row, with the name as a sequence of characters.
pub struct UserRecordView {
    pub name: Option<Seq<char>>,
    pub r: Option<i64>,
    pub g: Option<i64>,
    pub b: Option<i64>,
}

impl View for UserRecord {
    type V = UserRecordView;

    open spec fn view(&self) -> UserRecordView {
        UserRecordView {
            name: match self.name {
                Some(name) => Some(name@),
                None => None,
            },
            r: self.r,
            g: self.g,
            b: self.b,
        }
    }
}

/// The low eight bits of a stored channel value, as a channel. A value
/// between 0 and 255 is its own low byte.
pub open spec fn low_byte(v: i64) -> u8 {
    (v as int % 256) as u8
}

impl UserRecordView {
    /// No column of the row is null.
    pub open spec fn complete(self) -> bool {
        self.name is Some && self.r is Some && self.g is Some && self.b is Some
    }

    /// The user that a complete row decodes to.
    pub open spec fn decoded(self) -> UserView {
        UserView {
            name: self.name->0,
            color: RGB8 {
                r: low_byte(self.r->0),
                g: low_byte(self.g->0),
                b: low_byte(self.b->0),
            },
        }
    }
}

/// Every row of `rows` is complete.
pub open spec fn all_complete(rows: Seq<UserRecordView>) -> bool {
    forall|i: int| 0 <= i < rows.len() ==> (#[trigger] rows[i]).complete()
}

/// The users that complete rows decode to, in the rows' order.
pub open spec fn all_decoded(rows: Seq<UserRecordView>) -> Seq<UserView> {
    Seq::new(rows.len(), |i: int| rows[i].decoded())
}

/// The views of a vector of rows.
pub open spec fn record_views(rows: Seq<UserRecord>) -> Seq<UserRecordView> {
    Seq::new(rows.len(), |i: int| rows[i]@)
}

/// The views of a vector of users.
pub open spec fn user_views(users: Seq<User>) -> Seq<UserView> {
    Seq::new(users.len(), |i: int| users[i]@)
}

/// Narrows a stored channel value to a channel by keeping its low eight bits.
pub fn channel(v: i64) -> (c: u8)
    ensures
        c == low_byte(v),
        0 <= v <= 255 ==> c == v,
{
    let c: u8 = #[verifier::truncate] (v as u8);
    assert(c as int == v as int % 256) by (bit_vector)
        requires
            c == v as u8,
    ;
    c
}

impl UserRecord {
    /// Tells whether no column of the row is null.
    pub fn is_complete(&self) -> (complete: bool)
        ensures
            complete == self@.complete(),
    {
        self.name.is_some() && self.r.is_some() && self.g.is_some() && self.b.is_some()
    }
}

impl User {
    /// Decodes a complete row: the name as it is, each channel narrowed to its
    /// low eight bits.
    pub fn from(value: UserRecord) -> (user: User)
        requires
            value@.complete(),
        ensures
            user@ == value@.decoded(),
    {
        User {
            name: value.name.unwrap(),
            color: RGB8 {
                r: channel(value.r.unwrap()),
                g: channel(value.g.unwrap()),
                b: channel(value.b.unwrap()),
            },
        }
    }
}

} // verus!
