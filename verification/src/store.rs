//! The colour and user tables: a store that keeps one row per colour triple
//! and hands out fresh identifiers.

use crate::statement::{Reply, ReplyView, Statement, StatementView};
use crate::user::{record_views, UserRecord, UserRecordView};
use vstd::prelude::*;

verus! {

/// One row of the colour table.
#[derive(Clone, Copy, Debug, PartialEq, Eq)]
pub struct ColorRow {
    pub colorid: i64,
    pub r: u8,
    pub g: u8,
    pub b: u8,
}

/// One row of the user table.
#[derive(Debug, PartialEq, Eq)]
pub struct UserRow {
    pub userid: i64,
    pub name: String,
    pub color: i64,
}

/// A row of the user table, with the name as a sequence of characters.
pub struct UserRowView {
    pub userid: i64,
    pub name: Seq<char>,
    pub color: i64,
}

impl View for UserRow {
    type V = UserRowView;

    open spec fn view(&self) -> UserRowView {
        UserRowView { userid: self.userid, name: self.name@, color: self.color }
    }
}

/// The views of a list of user rows.
pub open spec fn row_views(rows: Seq<UserRow>) -> Seq<UserRowView> {
    Seq::new(rows.len(), |i: int| rows[i]@)
}

/// The two tables, each in the order in which its rows were added, and the
/// identifiers that the next new rows will get.
pub struct Tables {
    pub colors: Seq<ColorRow>,
    pub users: Seq<UserRowView>,
    pub next_colorid: i64,
    pub next_userid: i64,
}

impl ColorRow {
    /// The row holds the triple `(r, g, b)`.
    pub open spec fn is(self, r: u8, g: u8, b: u8) -> bool {
        self.r == r && self.g == g && self.b == b
    }
}

impl Tables {
    /// The empty tables, whose first identifiers will be 1.
    pub open spec fn empty() -> Tables {
        Tables { colors: Seq::empty(), users: Seq::empty(), next_colorid: 1, next_userid: 1 }
    }

    /// Some colour row holds the triple `(r, g, b)`.
    pub open spec fn has_color(self, r: u8, g: u8, b: u8) -> bool {
        exists|i: int| 0 <= i < self.colors.len() && (#[trigger] self.colors[i]).is(r, g, b)
    }

    /// The place of a colour row that holds the triple `(r, g, b)`.
    pub open spec fn color_index(self, r: u8, g: u8, b: u8) -> int {
        choose|i: int| 0 <= i < self.colors.len() && (#[trigger] self.colors[i]).is(r, g, b)
    }

    /// Some colour row has the identifier `id`.
    pub open spec fn has_colorid(self, id: i64) -> bool {
        exists|i: int| 0 <= i < self.colors.len() && (#[trigger] self.colors[i]).colorid == id
    }

    /// A colour row with the identifier `id`.
    pub open spec fn color_by_id(self, id: i64) -> ColorRow {
        self.colors[choose|i: int|
            0 <= i < self.colors.len() && (#[trigger] self.colors[i]).colorid == id]
    }

    /// Some user row has the identifier `id`.
    pub open spec fn has_user(self, id: int) -> bool {
        exists|i: int| 0 <= i < self.users.len() && (#[trigger] self.users[i]).userid == id
    }

    /// The place of a user row with the identifier `id`.
    pub open spec fn user_index(self, id: int) -> int {
        choose|i: int| 0 <= i < self.users.len() && (#[trigger] self.users[i]).userid == id
    }

    /// The tables are well formed: identifiers are positive, below the next
    /// one to be handed out, and grow along each table, so none occurs twice;
    /// no colour triple occurs twice; and every user refers to a colour that
    /// is there.
    pub open spec fn wf(self) -> bool {
        &&& 1 <= self.next_colorid
        &&& 1 <= self.next_userid
        &&& forall|i: int|
            0 <= i < self.colors.len() ==> 1 <= (#[trigger] self.colors[i]).colorid
                < self.next_colorid
        &&& forall|i: int, j: int|
            0 <= i < j < self.colors.len() ==> (#[trigger] self.colors[i]).colorid < (
            #[trigger] self.colors[j]).colorid
        &&& forall|i: int, j: int|
            0 <= i < j < self.colors.len() ==> !(#[trigger] self.colors[i]).is(
                (#[trigger] self.colors[j]).r,
                self.colors[j].g,
                self.colors[j].b,
            )
        &&& forall|i: int|
            0 <= i < self.users.len() ==> 1 <= (#[trigger] self.users[i]).userid < self.next_userid
        &&& forall|i: int, j: int|
            0 <= i < j < self.users.len() ==> (#[trigger] self.users[i]).userid < (
            #[trigger] self.users[j]).userid
        &&& forall|i: int|
            0 <= i < self.users.len() ==> self.has_colorid((#[trigger] self.users[i]).color)
    }

    /// A colour with the triple `(r, g, b)` can be added: the triple is new,
    /// and an identifier is left.
    pub open spec fn can_insert_color(self, r: u8, g: u8, b: u8) -> bool {
        !self.has_color(r, g, b) && self.next_colorid < i64::MAX
    }

    /// The tables after a colour with the triple `(r, g, b)` was added.
    pub open spec fn insert_color(self, r: u8, g: u8, b: u8) -> Tables {
        Tables {
            colors: self.colors.push(ColorRow { colorid: self.next_colorid, r, g, b }),
            next_colorid: (self.next_colorid + 1) as i64,
            ..self
        }
    }

    /// The rows that a selection of the identifiers of the colours with the
    /// triple `(r, g, b)` gives: in well-formed tables one at most.
    pub open spec fn select_colorid(self, r: u8, g: u8, b: u8) -> Seq<Option<i64>> {
        if self.has_color(r, g, b) {
            seq![Some(self.colors[self.color_index(r, g, b)].colorid)]
        } else {
            Seq::empty()
        }
    }

    /// A user who refers to the colour `color` can be added: the colour is
    /// there, and an identifier is left.
    pub open spec fn can_insert_user(self, color: i64) -> bool {
        self.has_colorid(color) && self.next_userid < i64::MAX
    }

    /// The tables after a user was added.
    pub open spec fn insert_user(self, name: Seq<char>, color: i64) -> Tables {
        Tables {
            users: self.users.push(UserRowView { userid: self.next_userid, name, color }),
            next_userid: (self.next_userid + 1) as i64,
            ..self
        }
    }

    /// The user row `user` joined with its colour.
    pub open spec fn joined(self, user: UserRowView) -> UserRecordView {
        let color = self.color_by_id(user.color);
        UserRecordView {
            name: Some(user.name),
            r: Some(color.r as i64),
            g: Some(color.g as i64),
            b: Some(color.b as i64),
        }
    }

    /// The rows that a selection of all users gives, in the table's order.
    pub open spec fn select_users(self) -> Seq<UserRecordView> {
        Seq::new(self.users.len(), |i: int| self.joined(self.users[i]))
    }

    /// The rows that a selection of the users with identifier `id` gives: in
    /// well-formed tables one at most.
    pub open spec fn select_user(self, id: int) -> Seq<UserRecordView> {
        if self.has_user(id) {
            seq![self.joined(self.users[self.user_index(id)])]
        } else {
            Seq::empty()
        }
    }

    /// The tables after the user with identifier `id` was removed; the
    /// colour table is never touched.
    pub open spec fn delete_user(self, id: int) -> Tables {
        if self.has_user(id) {
            Tables { users: self.users.remove(self.user_index(id)), ..self }
        } else {
            self
        }
    }

    /// What one statement does to the tables, and the reply to it. An
    /// insertion that cannot be made is refused and changes nothing.
    pub open spec fn executed(self, statement: StatementView) -> (Tables, ReplyView) {
        match statement {
            StatementView::InsertColor { r, g, b } => if self.can_insert_color(r, g, b) {
                (self.insert_color(r, g, b), ReplyView::Executed { rows_affected: 1 })
            } else {
                (self, ReplyView::Failed)
            },
            StatementView::SelectColorId { r, g, b } => (
                self,
                ReplyView::ColorIds(self.select_colorid(r, g, b)),
            ),
            StatementView::InsertUser { name, color } => if self.can_insert_user(color) {
                (self.insert_user(name, color), ReplyView::Executed { rows_affected: 1 })
            } else {
                (self, ReplyView::Failed)
            },
            StatementView::SelectUsers => (self, ReplyView::Users(self.select_users())),
            StatementView::SelectUser { id } => (
                self,
                ReplyView::Users(self.select_user(id as int)),
            ),
            StatementView::DeleteUser { id } => (
                self.delete_user(id as int),
                ReplyView::Executed {
                    rows_affected: if self.has_user(id as int) {
                        1
                    } else {
                        0
                    },
                },
            ),
        }
    }
}

/// The store: the two tables and the counters behind their identifiers.
#[derive(Debug)]
pub struct Store {
    colors: Vec<ColorRow>,
    users: Vec<UserRow>,
    next_colorid: i64,
    next_userid: i64,
}

impl View for Store {
    type V = Tables;

    closed spec fn view(&self) -> Tables {
        Tables {
            colors: self.colors@,
            users: row_views(self.users@),
            next_colorid: self.next_colorid,
            next_userid: self.next_userid,
        }
    }
}

impl Store {
    /// An empty store.
    pub fn new() -> (store: Store)
        ensures
            store@ == Tables::empty(),
            store@.wf(),
    {
        let store = Store {
            colors: Vec::new(),
            users: Vec::new(),
            next_colorid: 1,
            next_userid: 1,
        };
        assert(store@.users == Seq::<UserRowView>::empty());
        store
    }

    /// The rows of the colour table.
    pub fn colors(&self) -> (rows: &Vec<ColorRow>)
        ensures
            rows@ == self@.colors,
    {
        &self.colors
    }

    /// The rows of the user table.
    pub fn users(&self) -> (rows: &Vec<UserRow>)
        ensures
            row_views(rows@) == self@.users,
    {
        &self.users
    }

    /// The place of the colour row with the triple `(r, g, b)`, if there is
    /// one.
    fn find_color(&self, r: u8, g: u8, b: u8) -> (found: Option<usize>)
        requires
            self@.wf(),
        ensures
            found is Some == self@.has_color(r, g, b),
            found is Some ==> found->0 == self@.color_index(r, g, b),
    {
        let mut i: usize = 0;
        while i < self.colors.len()
            invariant
                i <= self.colors@.len(),
                self@.wf(),
                forall|k: int| 0 <= k < i ==> !(#[trigger] self.colors@[k]).is(r, g, b),
            decreases self.colors@.len() - i,
        {
            let row = &self.colors[i];
            if row.r == r && row.g == g && row.b == b {
                proof {
                    let k = self@.color_index(r, g, b);
                    assert(self@.colors[i as int].is(r, g, b));
                    assert(self@.colors[k].is(r, g, b));
                    if k < i {
                        assert(!self@.colors[k].is(self@.colors[i as int].r, row.g, row.b));
                    }
                    if i < k {
                        assert(!self@.colors[i as int].is(self@.colors[k].r, row.g, row.b));
                    }
                }
                return Some(i);
            }
            i += 1;
        }
        None
    }

    /// Adds a colour with the triple `(r, g, b)` and a fresh identifier, if
    /// it can be added; tells whether it was.
    pub fn insert_color(&mut self, r: u8, g: u8, b: u8) -> (inserted: bool)
        requires
            old(self)@.wf(),
        ensures
            final(self)@.wf(),
            inserted == old(self)@.can_insert_color(r, g, b),
            final(self)@ == if inserted {
                old(self)@.insert_color(r, g, b)
            } else {
                old(self)@
            },
    {
        if self.find_color(r, g, b).is_some() || self.next_colorid == i64::MAX {
            return false;
        }
        let row = ColorRow { colorid: self.next_colorid, r, g, b };
        self.colors.push(row);
        self.next_colorid = self.next_colorid + 1;
        proof {
            let before = old(self)@;
            let after = self@;
            assert(after.colors == before.colors.push(row));
            assert(after.users == before.users);
            assert forall|i: int| 0 <= i < after.users.len() implies after.has_colorid(
                (#[trigger] after.users[i]).color,
            ) by {
                assert(before.has_colorid(before.users[i].color));
                let k = choose|k: int|
                    0 <= k < before.colors.len() && (#[trigger] before.colors[k]).colorid
                        == before.users[i].color;
                assert(after.colors[k].colorid == before.users[i].color);
            }
        }
        true
    }

    /// The identifiers of the colours with the triple `(r, g, b)`.
    pub fn select_colorid(&self, r: u8, g: u8, b: u8) -> (rows: Vec<Option<i64>>)
        requires
            self@.wf(),
        ensures
            rows@ == self@.select_colorid(r, g, b),
    {
        let mut rows: Vec<Option<i64>> = Vec::new();
        if let Some(i) = self.find_color(r, g, b) {
            rows.push(Some(self.colors[i].colorid));
        }
        rows
    }

    /// The place of the colour row with identifier `id`, if there is one.
    fn find_colorid(&self, id: i64) -> (found: Option<usize>)
        requires
            self@.wf(),
        ensures
            found is Some == self@.has_colorid(id),
            found is Some ==> found->0 < self@.colors.len() && self@.colors[found->0 as int]
                == self@.color_by_id(id),
    {
        let mut i: usize = 0;
        while i < self.colors.len()
            invariant
                i <= self.colors@.len(),
                self@.wf(),
                forall|k: int| 0 <= k < i ==> (#[trigger] self.colors@[k]).colorid != id,
            decreases self.colors@.len() - i,
        {
            if self.colors[i].colorid == id {
                proof {
                    let k = choose|k: int|
                        0 <= k < self@.colors.len() && (#[trigger] self@.colors[k]).colorid == id;
                    assert(self@.colors[i as int].colorid == id);
                    assert(self@.colors[k].colorid == id);
                    assert(k == i);
                }
                return Some(i);
            }
            i += 1;
        }
        None
    }

    /// The place of the user row with identifier `id`, if there is one.
    fn find_user(&self, id: u32) -> (found: Option<usize>)
        requires
            self@.wf(),
        ensures
            found is Some == self@.has_user(id as int),
            found is Some ==> found->0 < self@.users.len() && found->0 == self@.user_index(
                id as int,
            ),
    {
        let mut i: usize = 0;
        while i < self.users.len()
            invariant
                i <= self.users@.len(),
                self@.wf(),
                forall|k: int| 0 <= k < i ==> (#[trigger] self@.users[k]).userid != id,
            decreases self.users@.len() - i,
        {
            if self.users[i].userid == id as i64 {
                proof {
                    let k = self@.user_index(id as int);
                    assert(self@.users[i as int].userid == id);
                    assert(self@.users[k].userid == id);
                    assert(k == i);
                }
                return Some(i);
            }
            i += 1;
        }
        None
    }

    /// Adds a user named `name` who refers to the colour `color`, with a fresh
    /// identifier, if such a user can be added; tells whether it was.
    pub fn insert_user(&mut self, name: String, color: i64) -> (inserted: bool)
        requires
            old(self)@.wf(),
        ensures
            final(self)@.wf(),
            inserted == old(self)@.can_insert_user(color),
            final(self)@ == if inserted {
                old(self)@.insert_user(name@, color)
            } else {
                old(self)@
            },
    {
        if self.find_colorid(color).is_none() || self.next_userid == i64::MAX {
            return false;
        }
        let row = UserRow { userid: self.next_userid, name, color };
        self.users.push(row);
        self.next_userid = self.next_userid + 1;
        proof {
            let before = old(self)@;
            let after = self@;
            assert(after.users == before.users.push(row@));
            assert(after.colors == before.colors);
            assert forall|i: int| 0 <= i < after.users.len() implies after.has_colorid(
                (#[trigger] after.users[i]).color,
            ) by {
                let c = after.users[i].color;
                assert(before.has_colorid(c)) by {
                    if i < before.users.len() {
                        assert(before.users[i].color == c);
                    }
                }
                let k = choose|k: int|
                    0 <= k < before.colors.len() && (#[trigger] before.colors[k]).colorid == c;
                assert(after.colors[k].colorid == c);
            }
        }
        true
    }

    /// The user row `row` joined with its colour.
    fn join(&self, row: &UserRow) -> (record: UserRecord)
        requires
            self@.wf(),
            self@.has_colorid(row.color),
        ensures
            record@ == self@.joined(row@),
    {
        let k = self.find_colorid(row.color).unwrap();
        let color = self.colors[k];
        UserRecord {
            name: Some(row.name.clone()),
            r: Some(color.r as i64),
            g: Some(color.g as i64),
            b: Some(color.b as i64),
        }
    }

    /// Every user, joined with their colour, in the table's order.
    pub fn select_users(&self) -> (rows: Vec<UserRecord>)
        requires
            self@.wf(),
        ensures
            record_views(rows@) == self@.select_users(),
    {
        let mut rows: Vec<UserRecord> = Vec::new();
        let mut i: usize = 0;
        while i < self.users.len()
            invariant
                i <= self.users@.len(),
                self@.wf(),
                record_views(rows@) == Seq::new(
                    i as nat,
                    |k: int| self@.joined(self@.users[k]),
                ),
            decreases self.users@.len() - i,
        {
            assert(self@.has_colorid(self@.users[i as int].color));
            let record = self.join(&self.users[i]);
            let ghost before = record_views(rows@);
            rows.push(record);
            assert(record_views(rows@) == before.push(record@));
            i += 1;
        }
        rows
    }

    /// The users with identifier `id`, joined with their colour.
    pub fn select_user(&self, id: u32) -> (rows: Vec<UserRecord>)
        requires
            self@.wf(),
        ensures
            record_views(rows@) == self@.select_user(id as int),
    {
        let mut rows: Vec<UserRecord> = Vec::new();
        if let Some(i) = self.find_user(id) {
            assert(self@.has_colorid(self@.users[i as int].color));
            let record = self.join(&self.users[i]);
            rows.push(record);
        }
        rows
    }

    /// Removes the user with identifier `id`, and says how many rows went.
    pub fn delete_user(&mut self, id: u32) -> (rows_affected: u64)
        requires
            old(self)@.wf(),
        ensures
            final(self)@.wf(),
            final(self)@ == old(self)@.delete_user(id as int),
            rows_affected == if old(self)@.has_user(id as int) {
                1u64
            } else {
                0u64
            },
    {
        match self.find_user(id) {
            Some(i) => {
                self.users.remove(i);
                proof {
                    let before = old(self)@;
                    let after = self@;
                    assert(after.users == before.users.remove(i as int));
                    assert(after.colors == before.colors);
                    assert forall|k: int| 0 <= k < after.users.len() implies after.has_colorid(
                        (#[trigger] after.users[k]).color,
                    ) by {
                        let from = if k < i { k } else { k + 1 };
                        let c = before.users[from].color;
                        assert(before.has_colorid(c));
                        let at = choose|at: int|
                            0 <= at < before.colors.len() && (#[trigger] before.colors[at]).colorid
                                == c;
                        assert(after.colors[at].colorid == c);
                    }
                }
                1
            },
            None => 0,
        }
    }

    /// Runs one statement and gives the reply to it.
    pub fn execute(&mut self, statement: Statement) -> (reply: Reply)
        requires
            old(self)@.wf(),
        ensures
            final(self)@.wf(),
            (final(self)@, reply@) == old(self)@.executed(statement@),
    {
        match statement {
            Statement::InsertColor { r, g, b } => {
                if self.insert_color(r, g, b) {
                    Reply::Executed { rows_affected: 1 }
                } else {
                    Reply::Failed
                }
            },
            Statement::SelectColorId { r, g, b } => Reply::ColorIds(self.select_colorid(r, g, b)),
            Statement::InsertUser { name, color } => {
                if self.insert_user(name, color) {
                    Reply::Executed { rows_affected: 1 }
                } else {
                    Reply::Failed
                }
            },
            Statement::SelectUsers => Reply::Users(self.select_users()),
            Statement::SelectUser { id } => Reply::Users(self.select_user(id)),
            Statement::DeleteUser { id } => Reply::Executed { rows_affected: self.delete_user(id) },
        }
    }
}

} // verus!
