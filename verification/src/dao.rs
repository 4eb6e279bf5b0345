//! The account repository: reading and writing rows of the account table.
//!
//! The repository knows the shape of the table and nothing of the rules. Every
//! lookup passes over deleted rows; every write stamps the row itself.

use vstd::prelude::*;
use crate::entity::{clone_text, nullable_text_view, row_view, text_view, Gender, Model, ModelView};
use crate::error::{AppError, AppErrorView};
use crate::state::{next_stamp, AppState, Changes, Lookup};
use crate::text::same_text;

verus! {

/// The view of what a write returns.
pub open spec fn row_result_view(result: Result<Model, AppError>) -> Result<ModelView, AppErrorView> {
    match result {
        Ok(row) => Ok(row@),
        Err(e) => Err(e@),
    }
}

/// The view of what a write without a row returns.
pub open spec fn unit_result_view(result: Result<(), AppError>) -> Result<(), AppErrorView> {
    match result {
        Ok(_) => Ok(()),
        Err(e) => Err(e@),
    }
}

/// The view of the fields handed to an update.
pub open spec fn changes_view(
    username: Option<String>,
    hashed_password: Option<String>,
    age: Option<Option<i32>>,
    gender: Option<Gender>,
    email: Option<Option<String>>,
) -> Changes {
    Changes {
        username: text_view(username),
        password: text_view(hashed_password),
        age,
        gender,
        email: nullable_text_view(email),
    }
}

/// Reads the system clock with `std::time::SystemTime::now` and has chrono
/// turn the reading into microseconds since the Unix epoch, through its
/// `From<SystemTime> for DateTime<Utc>` and `timestamp_micros`.
///
/// Nothing is claimed of the value: it is what the system clock shows. A
/// reading before the epoch comes back as a negative number.
#[verifier::external_body]
fn utc_now_micros() -> i64 {
    chrono::DateTime::<chrono::Utc>::from(std::time::SystemTime::now()).timestamp_micros()
}

/// Data access for the account table.
pub struct UserDao;

impl UserDao {
    /// The position of the live row with identifier `id`.
    fn locate(state: &AppState, id: i32) -> (at: Option<usize>)
        ensures
            match at {
                Some(i) => state@.position(Lookup::Id(id)) == Some(i as int) && i < state.users.len(),
                None => state@.position(Lookup::Id(id)) is None,
            },
    {
        let mut i: usize = 0;
        while i < state.users.len()
            invariant
                i <= state.users.len(),
                forall|j: int| 0 <= j < i ==> !state@.answers(j, Lookup::Id(id)),
            decreases state.users.len() - i,
        {
            if state.users[i].id == id && !state.users[i].is_deleted {
                proof {
                    state@.lemma_position_is_first(i as int, Lookup::Id(id));
                }
                return Some(i);
            }
            i += 1;
        }
        proof {
            state@.lemma_position_is_none(Lookup::Id(id));
        }
        None
    }

    /// The timestamp of a write at time `now` to a row last written at
    /// `previous`: `now` where that is later, else the next microsecond; none
    /// where no later timestamp exists.
    pub fn stamp_after(previous: i64, now: i64) -> (stamp: Option<i64>)
        ensures
            stamp == if previous < i64::MAX {
                Some(next_stamp(previous, now) as i64)
            } else {
                None
            },
    {
        if previous == i64::MAX {
            None
        } else if now > previous {
            Some(now)
        } else {
            Some(previous + 1)
        }
    }

    /// Adds a row for a new account and returns it.
    ///
    /// The row gets the next identifier, and the clock's reading as both of its
    /// timestamps. Fails, changing nothing, when no identifier is left.
    pub fn insert(
        state: &mut AppState,
        username: String,
        hashed_password: String,
        age: Option<i32>,
        gender: Gender,
        email: Option<String>,
    ) -> (result: Result<Model, AppError>)
        ensures
            exists|now: i64|
                (final(state)@, row_result_view(result)) == #[trigger] old(state)@.insert(
                    username@,
                    hashed_password@,
                    age,
                    gender,
                    text_view(email),
                    now,
                ),
            old(state).wf() ==> final(state).wf(),
    {
        let now = utc_now_micros();
        Self::insert_at(state, username, hashed_password, age, gender, email, now)
    }

    /// Adds a row for a new account at time `now` and returns it.
    pub fn insert_at(
        state: &mut AppState,
        username: String,
        hashed_password: String,
        age: Option<i32>,
        gender: Gender,
        email: Option<String>,
        now: i64,
    ) -> (result: Result<Model, AppError>)
        ensures
            (final(state)@, row_result_view(result)) == old(state)@.insert(
                username@,
                hashed_password@,
                age,
                gender,
                text_view(email),
                now,
            ),
            old(state).wf() ==> final(state).wf(),
    {
        if state.next_id == i32::MAX {
            return Err(AppError::InternalServer(String::from_str("no identifier left for a new record")));
        }
        let row = Model {
            id: state.next_id,
            username,
            password: hashed_password,
            age,
            gender,
            email,
            created_at: now,
            updated_at: now,
            is_deleted: false,
        };
        let copy = row.clone();
        state.next_id = state.next_id + 1;
        state.users.push(row);
        proof {
            assert(state@.rows =~= old(state)@.rows.push(copy@));
        }
        Ok(copy)
    }

    /// The live row with identifier `id`, if there is one.
    pub fn find_by_id(state: &AppState, id: i32) -> (result: Result<Option<Model>, AppError>)
        ensures
            result matches Ok(found) && row_view(found) == state@.find_by_id(id),
    {
        match Self::locate(state, id) {
            Some(i) => Ok(Some(state.users[i].clone())),
            None => Ok(None),
        }
    }

    /// The first live row with username `username`, if there is one.
    pub fn find_by_username(state: &AppState, username: &str) -> (result: Result<Option<Model>, AppError>)
        ensures
            result matches Ok(found) && row_view(found) == state@.find_by_username(username@),
    {
        let mut i: usize = 0;
        while i < state.users.len()
            invariant
                i <= state.users.len(),
                forall|j: int| 0 <= j < i ==> !state@.answers(j, Lookup::Username(username@)),
            decreases state.users.len() - i,
        {
            if !state.users[i].is_deleted && same_text(state.users[i].username.as_str(), username) {
                proof {
                    state@.lemma_position_is_first(i as int, Lookup::Username(username@));
                }
                return Ok(Some(state.users[i].clone()));
            }
            i += 1;
        }
        proof {
            state@.lemma_position_is_none(Lookup::Username(username@));
        }
        Ok(None)
    }

    /// Whether some live row other than `exclude_id` carries `username`.
    pub fn exists_by_username(state: &AppState, username: &str, exclude_id: Option<i32>) -> (result: Result<
        bool,
        AppError,
    >)
        ensures
            result matches Ok(held) && held == state@.exists_by_username(username@, exclude_id),
    {
        let mut i: usize = 0;
        while i < state.users.len()
            invariant
                i <= state.users.len(),
                forall|j: int| 0 <= j < i ==> !state@.holds_username(j, username@, exclude_id),
            decreases state.users.len() - i,
        {
            let excluded = match exclude_id {
                Some(id) => state.users[i].id == id,
                None => false,
            };
            if !excluded && !state.users[i].is_deleted && same_text(
                state.users[i].username.as_str(),
                username,
            ) {
                assert(state@.holds_username(i as int, username@, exclude_id));
                return Ok(true);
            }
            i += 1;
        }
        Ok(false)
    }

    /// Writes the given fields over the live row that carries `user`'s
    /// identifier, stamps it with the clock's reading, and returns it as written.
    ///
    /// A field that is `None` keeps its value; `Some(None)` clears `age` or
    /// `email`. The row's `updated_at` moves strictly forward whatever the clock
    /// shows. Fails, changing nothing, when no live row carries the identifier
    /// or the timestamp cannot advance.
    pub fn update(
        state: &mut AppState,
        user: Model,
        username: Option<String>,
        hashed_password: Option<String>,
        age: Option<Option<i32>>,
        gender: Option<Gender>,
        email: Option<Option<String>>,
    ) -> (result: Result<Model, AppError>)
        ensures
            exists|now: i64|
                (final(state)@, row_result_view(result)) == #[trigger] old(state)@.update(
                    user.id,
                    changes_view(username, hashed_password, age, gender, email),
                    now,
                ),
            old(state).wf() ==> final(state).wf(),
    {
        let now = utc_now_micros();
        Self::update_at(state, user, username, hashed_password, age, gender, email, now)
    }

    /// Writes the given fields, at time `now`, over the live row that carries
    /// `user`'s identifier, and returns the row as written.
    pub fn update_at(
        state: &mut AppState,
        user: Model,
        username: Option<String>,
        hashed_password: Option<String>,
        age: Option<Option<i32>>,
        gender: Option<Gender>,
        email: Option<Option<String>>,
        now: i64,
    ) -> (result: Result<Model, AppError>)
        ensures
            (final(state)@, row_result_view(result)) == old(state)@.update(
                user.id,
                changes_view(username, hashed_password, age, gender, email),
                now,
            ),
            old(state).wf() ==> final(state).wf(),
    {
        let i = match Self::locate(state, user.id) {
            Some(i) => i,
            None => {
                return Err(
                    AppError::InternalServer(String::from_str("no live record with this identifier")),
                );
            },
        };
        let stamp = match Self::stamp_after(state.users[i].updated_at, now) {
            Some(stamp) => stamp,
            None => {
                return Err(AppError::InternalServer(String::from_str("timestamp cannot advance")));
            },
        };
        let row = Model {
            id: state.users[i].id,
            username: match username {
                Some(username) => username,
                None => state.users[i].username.clone(),
            },
            password: match hashed_password {
                Some(password) => password,
                None => state.users[i].password.clone(),
            },
            age: match age {
                Some(age) => age,
                None => state.users[i].age,
            },
            gender: match gender {
                Some(gender) => gender,
                None => state.users[i].gender,
            },
            email: match email {
                Some(email) => email,
                None => clone_text(&state.users[i].email),
            },
            created_at: state.users[i].created_at,
            updated_at: stamp,
            is_deleted: state.users[i].is_deleted,
        };
        let copy = row.clone();
        state.users[i] = row;
        proof {
            assert(state@.rows =~= old(state)@.rows.update(i as int, copy@));
        }
        Ok(copy)
    }

    /// Marks the live row that carries `user`'s identifier as deleted and
    /// stamps it with the clock's reading.
    ///
    /// Fails, changing nothing, when no live row carries the identifier or the
    /// timestamp cannot advance.
    pub fn soft_delete(state: &mut AppState, user: Model) -> (result: Result<(), AppError>)
        ensures
            exists|now: i64|
                (final(state)@, unit_result_view(result)) == #[trigger] old(state)@.soft_delete(user.id, now),
            old(state).wf() ==> final(state).wf(),
    {
        let now = utc_now_micros();
        Self::soft_delete_at(state, user, now)
    }

    /// Marks the live row that carries `user`'s identifier as deleted, at time `now`.
    pub fn soft_delete_at(state: &mut AppState, user: Model, now: i64) -> (result: Result<(), AppError>)
        ensures
            (final(state)@, unit_result_view(result)) == old(state)@.soft_delete(user.id, now),
            old(state).wf() ==> final(state).wf(),
    {
        let i = match Self::locate(state, user.id) {
            Some(i) => i,
            None => {
                return Err(
                    AppError::InternalServer(String::from_str("no live record with this identifier")),
                );
            },
        };
        let stamp = match Self::stamp_after(state.users[i].updated_at, now) {
            Some(stamp) => stamp,
            None => {
                return Err(AppError::InternalServer(String::from_str("timestamp cannot advance")));
            },
        };
        let mut row = state.users[i].clone();
        row.updated_at = stamp;
        row.is_deleted = true;
        let ghost written = row@;
        state.users[i] = row;
        proof {
            assert(state@.rows =~= old(state)@.rows.update(i as int, written));
        }
        Ok(())
    }
}

} // verus!
