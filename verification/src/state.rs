//! The account table: its mathematical model, and the state that holds it.

use vstd::prelude::*;
use crate::entity::{Gender, Model, ModelView};
use crate::error::AppErrorView;

verus! {

/// What a lookup asks for.
pub enum Lookup {
    Id(i32),
    Username(Seq<char>),
}

/// The fields that an update may overwrite; an absent one keeps its value.
///
/// For `age` and `email` the outer level says whether the field is touched,
/// the inner level whether it is set or cleared.
pub struct Changes {
    pub username: Option<Seq<char>>,
    pub password: Option<Seq<char>>,
    pub age: Option<Option<i32>>,
    pub gender: Option<Gender>,
    pub email: Option<Option<Seq<char>>>,
}

/// Detail of the failure to insert when every identifier has been given out.
pub open spec fn no_identifier_left() -> Seq<char> {
    "no identifier left for a new record"@
}

/// Detail of the failure to write a row that is not there, or is deleted.
pub open spec fn no_live_record() -> Seq<char> {
    "no live record with this identifier"@
}

/// Detail of the failure to write a row whose timestamp cannot advance.
pub open spec fn timestamp_exhausted() -> Seq<char> {
    "timestamp cannot advance"@
}

/// The timestamp of a write at time `now` to a row last written at `previous`:
/// `now`, unless the row would not move forward.
pub open spec fn next_stamp(previous: i64, now: i64) -> int {
    if now > previous {
        now as int
    } else {
        previous + 1
    }
}

impl ModelView {
    /// The row is visible to lookups.
    pub open spec fn is_live(self) -> bool {
        !self.is_deleted
    }

    /// The row with the present fields of `changes` written over its own, stamped `stamp`.
    pub open spec fn merged(self, changes: Changes, stamp: i64) -> ModelView {
        ModelView {
            id: self.id,
            username: match changes.username {
                Some(username) => username,
                None => self.username,
            },
            password: match changes.password {
                Some(password) => password,
                None => self.password,
            },
            age: match changes.age {
                Some(age) => age,
                None => self.age,
            },
            gender: match changes.gender {
                Some(gender) => gender,
                None => self.gender,
            },
            email: match changes.email {
                Some(email) => email,
                None => self.email,
            },
            created_at: self.created_at,
            updated_at: stamp,
            is_deleted: self.is_deleted,
        }
    }

    /// The row marked deleted, stamped `stamp`.
    pub open spec fn deleted(self, stamp: i64) -> ModelView {
        ModelView { updated_at: stamp, is_deleted: true, ..self }
    }
}

/// The account table as a value: its rows in the order they were inserted, and
/// the identifier that the next row will get.
pub struct UserTable {
    pub rows: Seq<ModelView>,
    pub next_id: int,
}

impl UserTable {
    /// The table without rows.
    pub open spec fn empty() -> UserTable {
        UserTable { rows: Seq::empty(), next_id: 1 }
    }

    /// The shape that every table has: identifiers are positive, grow with the
    /// position of the row, and lie below the next one to be given out.
    pub open spec fn wf(self) -> bool {
        &&& 1 <= self.next_id <= i32::MAX
        &&& forall|i: int| 0 <= i < self.rows.len() ==> 1 <= (#[trigger] self.rows[i]).id < self.next_id
        &&& forall|i: int, j: int|
            0 <= i < j < self.rows.len() ==> (#[trigger] self.rows[i]).id < (#[trigger] self.rows[j]).id
    }

    /// No two live rows share a username.
    pub open spec fn usernames_unique(self) -> bool {
        forall|i: int, j: int|
            0 <= i < j < self.rows.len() && (#[trigger] self.rows[i]).is_live() && (#[trigger] self.rows[j]).is_live()
                ==> self.rows[i].username != self.rows[j].username
    }

    /// Row `i` is live and is what `key` asks for.
    pub open spec fn answers(self, i: int, key: Lookup) -> bool {
        &&& 0 <= i < self.rows.len()
        &&& self.rows[i].is_live()
        &&& match key {
            Lookup::Id(id) => self.rows[i].id == id,
            Lookup::Username(username) => self.rows[i].username == username,
        }
    }

    /// Row `i` answers `key`, and no row before it does.
    pub open spec fn first_answer(self, i: int, key: Lookup) -> bool {
        &&& self.answers(i, key)
        &&& forall|j: int| 0 <= j < i ==> !self.answers(j, key)
    }

    /// The position of the first row that answers `key`.
    pub open spec fn position(self, key: Lookup) -> Option<int> {
        if exists|i: int| self.first_answer(i, key) {
            Some(choose|i: int| self.first_answer(i, key))
        } else {
            None
        }
    }

    /// The first row that answers `key`.
    pub open spec fn find(self, key: Lookup) -> Option<ModelView> {
        match self.position(key) {
            Some(i) => Some(self.rows[i]),
            None => None,
        }
    }

    /// The live row with identifier `id`.
    pub open spec fn find_by_id(self, id: i32) -> Option<ModelView> {
        self.find(Lookup::Id(id))
    }

    /// The first live row with username `username`.
    pub open spec fn find_by_username(self, username: Seq<char>) -> Option<ModelView> {
        self.find(Lookup::Username(username))
    }

    /// Row `i` is live, carries `username`, and is not the row `exclude_id`.
    pub open spec fn holds_username(self, i: int, username: Seq<char>, exclude_id: Option<i32>) -> bool {
        &&& self.answers(i, Lookup::Username(username))
        &&& exclude_id matches Some(id) ==> self.rows[i].id != id
    }

    /// Some live row other than `exclude_id` carries `username`.
    pub open spec fn exists_by_username(self, username: Seq<char>, exclude_id: Option<i32>) -> bool {
        exists|i: int| self.holds_username(i, username, exclude_id)
    }

    /// The row that an insert at time `now` adds.
    pub open spec fn new_row(
        self,
        username: Seq<char>,
        password: Seq<char>,
        age: Option<i32>,
        gender: Gender,
        email: Option<Seq<char>>,
        now: i64,
    ) -> ModelView {
        ModelView {
            id: self.next_id as i32,
            username,
            password,
            age,
            gender,
            email,
            created_at: now,
            updated_at: now,
            is_deleted: false,
        }
    }

    /// The table with `row` added at the end and the next identifier moved on.
    pub open spec fn with_row(self, row: ModelView) -> UserTable {
        UserTable { rows: self.rows.push(row), next_id: self.next_id + 1 }
    }

    /// The table with `row` in place of row `i`.
    pub open spec fn with_row_at(self, i: int, row: ModelView) -> UserTable {
        UserTable { rows: self.rows.update(i, row), next_id: self.next_id }
    }

    /// Insert at time `now`: the table afterwards and the row, or the failure.
    ///
    /// It fails, and changes nothing, only when no identifier is left.
    pub open spec fn insert(
        self,
        username: Seq<char>,
        password: Seq<char>,
        age: Option<i32>,
        gender: Gender,
        email: Option<Seq<char>>,
        now: i64,
    ) -> (UserTable, Result<ModelView, AppErrorView>) {
        if self.next_id < i32::MAX {
            let row = self.new_row(username, password, age, gender, email, now);
            (self.with_row(row), Ok(row))
        } else {
            (self, Err(AppErrorView::InternalServer(no_identifier_left())))
        }
    }

    /// Update of the live row `id` at time `now`: the table afterwards and the
    /// row as written, or the failure.
    ///
    /// It fails, and changes nothing, when no live row carries `id` or when the
    /// row's timestamp cannot advance.
    pub open spec fn update(self, id: i32, changes: Changes, now: i64) -> (
        UserTable,
        Result<ModelView, AppErrorView>,
    ) {
        match self.position(Lookup::Id(id)) {
            None => (self, Err(AppErrorView::InternalServer(no_live_record()))),
            Some(i) => {
                if self.rows[i].updated_at < i64::MAX {
                    let stamp = next_stamp(self.rows[i].updated_at, now) as i64;
                    let row = self.rows[i].merged(changes, stamp);
                    (self.with_row_at(i, row), Ok(row))
                } else {
                    (self, Err(AppErrorView::InternalServer(timestamp_exhausted())))
                }
            },
        }
    }

    /// Soft delete of the live row `id` at time `now`: the table afterwards, or
    /// the failure.
    ///
    /// It fails, and changes nothing, when no live row carries `id` or when the
    /// row's timestamp cannot advance.
    pub open spec fn soft_delete(self, id: i32, now: i64) -> (UserTable, Result<(), AppErrorView>) {
        match self.position(Lookup::Id(id)) {
            None => (self, Err(AppErrorView::InternalServer(no_live_record()))),
            Some(i) => {
                if self.rows[i].updated_at < i64::MAX {
                    let stamp = next_stamp(self.rows[i].updated_at, now) as i64;
                    (self.with_row_at(i, self.rows[i].deleted(stamp)), Ok(()))
                } else {
                    (self, Err(AppErrorView::InternalServer(timestamp_exhausted())))
                }
            },
        }
    }

    /// The first row that answers `key` is at the position that `position` gives.
    pub proof fn lemma_position_is_first(self, i: int, key: Lookup)
        requires
            self.first_answer(i, key),
        ensures
            self.position(key) == Some(i),
    {
        let chosen = choose|k: int| self.first_answer(k, key);
        assert(self.first_answer(chosen, key));
        if chosen < i {
            assert(!self.answers(chosen, key));
        }
        if i < chosen {
            assert(!self.answers(i, key));
        }
    }

    /// Where no row answers `key`, there is no position.
    pub proof fn lemma_position_is_none(self, key: Lookup)
        requires
            forall|i: int| 0 <= i < self.rows.len() ==> !self.answers(i, key),
        ensures
            self.position(key) is None,
    {
        if exists|i: int| self.first_answer(i, key) {
            let chosen = choose|i: int| self.first_answer(i, key);
            assert(self.answers(chosen, key));
        }
    }

    /// Where some row answers `key`, a first one does, at or before it.
    pub proof fn lemma_position_exists(self, i: int, key: Lookup)
        requires
            self.answers(i, key),
        ensures
            self.position(key) matches Some(k) && k <= i && self.first_answer(k, key),
        decreases i,
    {
        if exists|j: int| 0 <= j < i && self.answers(j, key) {
            let j = choose|j: int| 0 <= j < i && self.answers(j, key);
            self.lemma_position_exists(j, key);
        } else {
            assert(self.first_answer(i, key));
            self.lemma_position_is_first(i, key);
        }
    }

    /// In a well-formed table at most one row carries an identifier.
    pub proof fn lemma_id_position(self, i: int, id: i32)
        requires
            self.wf(),
            self.answers(i, Lookup::Id(id)),
        ensures
            self.position(Lookup::Id(id)) == Some(i),
    {
        assert forall|j: int| 0 <= j < i implies !self.answers(j, Lookup::Id(id)) by {
            assert(self.rows[j].id < self.rows[i].id);
        }
        self.lemma_position_is_first(i, Lookup::Id(id));
    }
}

/// The state that the repository and the service work on: the account table.
pub struct AppState {
    pub(crate) users: Vec<Model>,
    pub(crate) next_id: i32,
}

impl View for AppState {
    type V = UserTable;

    open(crate) spec fn view(&self) -> UserTable {
        UserTable { rows: self.users@.map_values(|m: Model| m@), next_id: self.next_id as int }
    }
}

impl AppState {
    /// The table has the shape that every table has.
    pub open spec fn wf(&self) -> bool {
        self@.wf()
    }

    /// A state with an empty table.
    pub fn new() -> (state: AppState)
        ensures
            state.wf(),
            state@ == UserTable::empty(),
    {
        let state = AppState { users: Vec::new(), next_id: 1 };
        assert(state@.rows =~= Seq::empty());
        state
    }
}

} // verus!
