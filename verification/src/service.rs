//! The account service: the rules of creating, changing, deleting and
//! authenticating accounts.
//!
//! Each operation is stated as a function on the table (`spec_create`,
//! `spec_update`, `spec_delete`, `spec_verify_login`). What the hasher and the
//! clock hand back are arguments of these functions, so that an operation's
//! outcome is fixed once they are. The decisions of an operation are functions
//! of their own, from what storage answered to what happens next; a caller
//! whose storage lives elsewhere runs the same decisions around its own reads
//! and writes.

use vstd::prelude::*;
use crate::crypto::{bcrypt_verify, digest_view, hash_password, is_digest_of, outcome_view, verify_password};
use crate::dao::{changes_view, row_result_view, unit_result_view, UserDao};
use crate::entity::{nullable_text_view, row_view, text_view, Gender, Model, ModelView};
use crate::error::{AppError, AppErrorView};
use crate::state::{AppState, Changes, UserTable};
use crate::text::{id_numeral, numeral};

verus! {

/// The failure of taking a username that a live account holds.
pub open spec fn duplicate_username(username: Seq<char>) -> AppErrorView {
    AppErrorView::AlreadyExists("用户名已存在: "@ + username)
}

/// The failure of looking up a username that no live account holds.
pub open spec fn unknown_username(username: Seq<char>) -> AppErrorView {
    AppErrorView::NotFound("用户不存在: "@ + username)
}

/// The failure of addressing an identifier that no live account carries.
pub open spec fn unknown_id(id: i32) -> AppErrorView {
    AppErrorView::NotFound("用户不存在: "@ + numeral(id as int))
}

/// The failure of the hasher, with the hasher's own words.
pub open spec fn hashing_failure(detail: Seq<char>) -> AppErrorView {
    AppErrorView::InternalServer("密码哈希失败: "@ + detail)
}

/// The one failure of authentication, whatever its cause.
pub open spec fn invalid_credential() -> AppErrorView {
    AppErrorView::Unauthorized("密码错误"@)
}

/// What the hasher may hand back for `password`: a failure, or a digest that
/// the password verifies against.
pub open spec fn may_hash_to(password: Seq<char>, hashed: Result<Seq<char>, Seq<char>>) -> bool {
    hashed matches Ok(digest) ==> is_digest_of(password, digest)
}

/// What the hasher may hand back for the password of an update: nothing where
/// no password is given, and else what it may hand back for that password.
pub open spec fn may_rehash_to(
    password: Option<Seq<char>>,
    hashed: Option<Result<Seq<char>, Seq<char>>>,
) -> bool {
    match password {
        Some(password) => hashed matches Some(outcome) && may_hash_to(password, outcome),
        None => hashed is None,
    }
}

/// The account service.
pub struct UserService;

impl UserService {
    /// Creating an account, given what the hasher and the clock hand back.
    ///
    /// A live account with the username forbids it. Else a failure of the
    /// hasher ends it. Else the row is inserted.
    pub open spec fn spec_create(
        table: UserTable,
        username: Seq<char>,
        hashed: Result<Seq<char>, Seq<char>>,
        age: Option<i32>,
        gender: Gender,
        email: Option<Seq<char>>,
        now: i64,
    ) -> (UserTable, Result<ModelView, AppErrorView>) {
        if table.exists_by_username(username, None) {
            (table, Err(duplicate_username(username)))
        } else {
            match hashed {
                Err(detail) => (table, Err(hashing_failure(detail))),
                Ok(digest) => table.insert(username, digest, age, gender, email, now),
            }
        }
    }

    /// Looking up an account by its username.
    pub open spec fn spec_find_by_username(table: UserTable, username: Seq<char>) -> Result<
        ModelView,
        AppErrorView,
    > {
        match table.find_by_username(username) {
            Some(user) => Ok(user),
            None => Err(unknown_username(username)),
        }
    }

    /// Updating an account, given what the hasher and the clock hand back.
    ///
    /// It needs a live account with the identifier. A new username must not be
    /// held by another live account. Where a new password is given, a failure
    /// of the hasher ends it. Else the given fields are written.
    pub open spec fn spec_update(
        table: UserTable,
        id: i32,
        username: Option<Seq<char>>,
        hashed: Option<Result<Seq<char>, Seq<char>>>,
        age: Option<Option<i32>>,
        gender: Option<Gender>,
        email: Option<Option<Seq<char>>>,
        now: i64,
    ) -> (UserTable, Result<ModelView, AppErrorView>) {
        if table.find_by_id(id) is None {
            (table, Err(unknown_id(id)))
        } else if username matches Some(name) && table.exists_by_username(name, Some(id)) {
            (table, Err(duplicate_username(username->0)))
        } else {
            match hashed {
                Some(Err(detail)) => (table, Err(hashing_failure(detail))),
                Some(Ok(digest)) => table.update(
                    id,
                    Changes { username, password: Some(digest), age, gender, email },
                    now,
                ),
                None => table.update(id, Changes { username, password: None, age, gender, email }, now),
            }
        }
    }

    /// Deleting an account, given what the clock hands back.
    pub open spec fn spec_delete(table: UserTable, id: i32, now: i64) -> (UserTable, Result<(), AppErrorView>) {
        if table.find_by_id(id) is None {
            (table, Err(unknown_id(id)))
        } else {
            table.soft_delete(id, now)
        }
    }

    /// Authenticating: the account, where a live account holds the username
    /// and the password verifies against its digest; else the one failure.
    pub open spec fn spec_verify_login(table: UserTable, username: Seq<char>, password: Seq<char>) -> Result<
        ModelView,
        AppErrorView,
    > {
        match table.find_by_username(username) {
            Some(user) => Self::spec_credential_outcome(user, bcrypt_verify(password, user.password)),
            None => Err(invalid_credential()),
        }
    }

    /// What authentication makes of the hasher's verdict on an account.
    pub open spec fn spec_credential_outcome(user: ModelView, verified: Result<bool, Seq<char>>) -> Result<
        ModelView,
        AppErrorView,
    > {
        if verified == Ok::<bool, Seq<char>>(true) {
            Ok(user)
        } else {
            Err(invalid_credential())
        }
    }

    /// Decides on the answer to "does a live account hold this username":
    /// refuses the username where one does.
    pub fn check_username_free(taken: bool, username: &str) -> (result: Result<(), AppError>)
        ensures
            taken ==> (result matches Err(e) && e@ == duplicate_username(username@)),
            !taken ==> result is Ok,
    {
        if taken {
            Err(AppError::AlreadyExists(String::from_str("用户名已存在: ").concat(username)))
        } else {
            Ok(())
        }
    }

    /// Turns what the hasher handed back into the digest to store, or the failure.
    pub fn digest_or_failure(hashed: Result<String, String>) -> (result: Result<String, AppError>)
        ensures
            match hashed {
                Ok(digest) => result matches Ok(stored) && stored@ == digest@,
                Err(detail) => result matches Err(e) && e@ == hashing_failure(detail@),
            },
    {
        match hashed {
            Ok(digest) => Ok(digest),
            Err(detail) => Err(
                AppError::InternalServer(String::from_str("密码哈希失败: ").concat(detail.as_str())),
            ),
        }
    }

    /// Hashes a password for storage.
    ///
    /// Whatever the hasher does, the result is a digest of the password or a
    /// hashing failure.
    pub fn hash_for_storage(password: &str) -> (result: Result<String, AppError>)
        ensures
            match result {
                Ok(digest) => is_digest_of(password@, digest@),
                Err(e) => exists|detail: Seq<char>| e@ == #[trigger] hashing_failure(detail),
            },
    {
        let hashed = hash_password(password);
        let ghost outcome = digest_view(hashed);
        let result = Self::digest_or_failure(hashed);
        proof {
            if let Err(detail) = outcome {
                assert(result->Err_0@ == hashing_failure(detail));
            }
        }
        result
    }

    /// The digest to store for a new account, once storage has said whether a
    /// live account holds the username.
    ///
    /// A held username is refused before the hasher is asked.
    pub fn new_account_digest(taken: bool, username: &str, password: &str) -> (result: Result<
        String,
        AppError,
    >)
        ensures
            taken ==> (result matches Err(e) && e@ == duplicate_username(username@)),
            !taken ==> match result {
                Ok(digest) => is_digest_of(password@, digest@),
                Err(e) => exists|detail: Seq<char>| e@ == #[trigger] hashing_failure(detail),
            },
    {
        match Self::check_username_free(taken, username) {
            Ok(_) => Self::hash_for_storage(password),
            Err(e) => Err(e),
        }
    }

    /// Decides on the answer to "which live account carries this identifier":
    /// the account, or the failure that names the identifier.
    pub fn account_or_not_found(found: Option<Model>, id: i32) -> (result: Result<Model, AppError>)
        ensures
            row_result_view(result) == match found {
                Some(user) => Ok::<ModelView, AppErrorView>(user@),
                None => Err::<ModelView, AppErrorView>(unknown_id(id)),
            },
    {
        match found {
            Some(user) => Ok(user),
            None => {
                let numeral = id_numeral(id);
                Err(AppError::NotFound(String::from_str("用户不存在: ").concat(numeral.as_str())))
            },
        }
    }

    /// Decides on the answer to "which live account holds this username": the
    /// account, or the failure that names the username.
    pub fn account_or_unknown_username(found: Option<Model>, username: &str) -> (result: Result<
        Model,
        AppError,
    >)
        ensures
            row_result_view(result) == match found {
                Some(user) => Ok::<ModelView, AppErrorView>(user@),
                None => Err::<ModelView, AppErrorView>(unknown_username(username@)),
            },
    {
        match found {
            Some(user) => Ok(user),
            None => Err(AppError::NotFound(String::from_str("用户不存在: ").concat(username))),
        }
    }

    /// The digest to store for an update: none where no password is given.
    pub fn changed_digest(password: Option<String>) -> (result: Result<Option<String>, AppError>)
        ensures
            match password {
                None => result matches Ok(None),
                Some(password) => match result {
                    Ok(digest) => digest matches Some(digest) && is_digest_of(password@, digest@),
                    Err(e) => exists|detail: Seq<char>| e@ == #[trigger] hashing_failure(detail),
                },
            },
    {
        match password {
            None => Ok(None),
            Some(password) => match Self::hash_for_storage(password.as_str()) {
                Ok(digest) => Ok(Some(digest)),
                Err(e) => Err(e),
            },
        }
    }

    /// What authentication makes of the hasher's verdict on an account: the
    /// account where the password verified, else the one failure. A digest
    /// that the hasher cannot read counts as a password that does not match.
    pub fn credential_outcome(user: Model, verified: Result<bool, String>) -> (result: Result<
        Model,
        AppError,
    >)
        ensures
            row_result_view(result) == Self::spec_credential_outcome(user@, outcome_view(verified)),
    {
        match verified {
            Ok(true) => Ok(user),
            _ => Err(AppError::Unauthorized(String::from_str("密码错误"))),
        }
    }

    /// Authenticates against the account that storage found for the username.
    ///
    /// An unknown username and a wrong password give the same failure.
    pub fn login(found: Option<Model>, password: &str) -> (result: Result<Model, AppError>)
        ensures
            row_result_view(result) == match found {
                Some(user) => Self::spec_credential_outcome(user@, bcrypt_verify(password@, user@.password)),
                None => Err::<ModelView, AppErrorView>(invalid_credential()),
            },
    {
        match found {
            Some(user) => {
                let verified = verify_password(password, user.password.as_str());
                Self::credential_outcome(user, verified)
            },
            None => Err(AppError::Unauthorized(String::from_str("密码错误"))),
        }
    }

    /// Creates an account.
    ///
    /// Fails with `AlreadyExists` exactly when a live account holds the
    /// username. Else it stores a digest of the password, never the password,
    /// and returns the new row; only a failure of the hasher or an exhausted
    /// table stand in the way. A failure changes nothing.
    pub fn create(
        state: &mut AppState,
        username: String,
        password: String,
        age: Option<i32>,
        gender: Gender,
        email: Option<String>,
    ) -> (result: Result<Model, AppError>)
        ensures
            exists|hashed: Result<Seq<char>, Seq<char>>, now: i64|
                may_hash_to(password@, hashed) && (final(state)@, row_result_view(result))
                    == #[trigger] Self::spec_create(
                    old(state)@,
                    username@,
                    hashed,
                    age,
                    gender,
                    text_view(email),
                    now,
                ),
            old(state).wf() ==> final(state).wf(),
    {
        let taken = match UserDao::exists_by_username(state, username.as_str(), None) {
            Ok(taken) => taken,
            Err(e) => {
                return Err(e);
            },
        };
        let digest = match Self::new_account_digest(taken, username.as_str(), password.as_str()) {
            Ok(digest) => digest,
            Err(e) => {
                proof {
                    let hashed = if taken {
                        Err::<Seq<char>, Seq<char>>(Seq::empty())
                    } else {
                        Err::<Seq<char>, Seq<char>>(choose|detail: Seq<char>| e@ == hashing_failure(detail))
                    };
                    assert((state@, Err::<ModelView, AppErrorView>(e@)) == Self::spec_create(
                        old(state)@,
                        username@,
                        hashed,
                        age,
                        gender,
                        text_view(email),
                        0,
                    ));
                }
                return Err(e);
            },
        };
        let result = UserDao::insert(state, username, digest, age, gender, email);
        proof {
            let now = choose|now: i64|
                (state@, row_result_view(result)) == #[trigger] old(state)@.insert(
                    username@,
                    digest@,
                    age,
                    gender,
                    text_view(email),
                    now,
                );
            assert((state@, row_result_view(result)) == Self::spec_create(
                old(state)@,
                username@,
                Ok::<Seq<char>, Seq<char>>(digest@),
                age,
                gender,
                text_view(email),
                now,
            ));
        }
        result
    }

    /// The live account with identifier `id`; absence is no failure here.
    pub fn find_by_id(state: &AppState, id: i32) -> (result: Result<Option<Model>, AppError>)
        ensures
            result matches Ok(found) && row_view(found) == state@.find_by_id(id),
    {
        UserDao::find_by_id(state, id)
    }

    /// The live account with username `username`, or `NotFound`.
    pub fn find_by_username(state: &AppState, username: &str) -> (result: Result<Model, AppError>)
        ensures
            row_result_view(result) == Self::spec_find_by_username(state@, username@),
    {
        match UserDao::find_by_username(state, username) {
            Ok(found) => Self::account_or_unknown_username(found, username),
            Err(e) => Err(e),
        }
    }

    /// Updates the account with identifier `id`.
    ///
    /// Fails with `NotFound` when no live account carries `id`, and with
    /// `AlreadyExists` when a new username is held by another live account.
    /// Else every given field is written and no other, a new password as its
    /// digest, and `updated_at` moves strictly forward. A failure changes nothing.
    pub fn update(
        state: &mut AppState,
        id: i32,
        username: Option<String>,
        password: Option<String>,
        age: Option<Option<i32>>,
        gender: Option<Gender>,
        email: Option<Option<String>>,
    ) -> (result: Result<Model, AppError>)
        ensures
            exists|hashed: Option<Result<Seq<char>, Seq<char>>>, now: i64|
                may_rehash_to(text_view(password), hashed) && (final(state)@, row_result_view(result))
                    == #[trigger] Self::spec_update(
                    old(state)@,
                    id,
                    text_view(username),
                    hashed,
                    age,
                    gender,
                    nullable_text_view(email),
                    now,
                ),
            old(state).wf() ==> final(state).wf(),
    {
        let ghost unhashed: Option<Result<Seq<char>, Seq<char>>> = match text_view(password) {
            Some(_) => Some(Err(Seq::empty())),
            None => None,
        };
        let found = match Self::find_by_id(state, id) {
            Ok(found) => found,
            Err(e) => {
                return Err(e);
            },
        };
        let user = match Self::account_or_not_found(found, id) {
            Ok(user) => user,
            Err(e) => {
                proof {
                    assert((state@, Err::<ModelView, AppErrorView>(e@)) == Self::spec_update(
                        old(state)@,
                        id,
                        text_view(username),
                        unhashed,
                        age,
                        gender,
                        nullable_text_view(email),
                        0,
                    ));
                }
                return Err(e);
            },
        };
        if let Some(new_username) = &username {
            let taken = match UserDao::exists_by_username(state, new_username.as_str(), Some(id)) {
                Ok(taken) => taken,
                Err(e) => {
                    return Err(e);
                },
            };
            match Self::check_username_free(taken, new_username.as_str()) {
                Ok(_) => {},
                Err(e) => {
                    proof {
                        assert((state@, Err::<ModelView, AppErrorView>(e@)) == Self::spec_update(
                            old(state)@,
                            id,
                            text_view(username),
                            unhashed,
                            age,
                            gender,
                            nullable_text_view(email),
                            0,
                        ));
                    }
                    return Err(e);
                },
            }
        }
        let hashed_password = match Self::changed_digest(password) {
            Ok(digest) => digest,
            Err(e) => {
                proof {
                    let detail = choose|detail: Seq<char>| e@ == hashing_failure(detail);
                    assert((state@, Err::<ModelView, AppErrorView>(e@)) == Self::spec_update(
                        old(state)@,
                        id,
                        text_view(username),
                        Some(Err::<Seq<char>, Seq<char>>(detail)),
                        age,
                        gender,
                        nullable_text_view(email),
                        0,
                    ));
                }
                return Err(e);
            },
        };
        let ghost hashed: Option<Result<Seq<char>, Seq<char>>> = match text_view(hashed_password) {
            Some(digest) => Some(Ok(digest)),
            None => None,
        };
        let result = UserDao::update(state, user, username, hashed_password, age, gender, email);
        proof {
            let now = choose|now: i64|
                (state@, row_result_view(result)) == #[trigger] old(state)@.update(
                    user.id,
                    changes_view(username, hashed_password, age, gender, email),
                    now,
                );
            assert((state@, row_result_view(result)) == Self::spec_update(
                old(state)@,
                id,
                text_view(username),
                hashed,
                age,
                gender,
                nullable_text_view(email),
                now,
            ));
        }
        result
    }

    /// Deletes the account with identifier `id`: the row stays, marked
    /// deleted, and no lookup finds it again.
    ///
    /// Fails with `NotFound`, changing nothing, when no live account carries `id`.
    pub fn delete(state: &mut AppState, id: i32) -> (result: Result<(), AppError>)
        ensures
            exists|now: i64|
                (final(state)@, unit_result_view(result)) == #[trigger] Self::spec_delete(old(state)@, id, now),
            old(state).wf() ==> final(state).wf(),
    {
        let found = match Self::find_by_id(state, id) {
            Ok(found) => found,
            Err(e) => {
                return Err(e);
            },
        };
        let user = match Self::account_or_not_found(found, id) {
            Ok(user) => user,
            Err(e) => {
                proof {
                    assert((state@, Err::<(), AppErrorView>(e@)) == Self::spec_delete(old(state)@, id, 0));
                }
                return Err(e);
            },
        };
        let result = UserDao::soft_delete(state, user);
        proof {
            let now = choose|now: i64|
                (state@, unit_result_view(result)) == #[trigger] old(state)@.soft_delete(user.id, now);
            assert((state@, unit_result_view(result)) == Self::spec_delete(old(state)@, id, now));
        }
        result
    }

    /// Authenticates a username and a password.
    ///
    /// Returns the account exactly when a live account holds the username and
    /// the password verifies against its digest. Every other case gives the
    /// same `Unauthorized` failure: an unknown username cannot be told from a
    /// wrong password.
    pub fn verify_login(state: &AppState, username: &str, password: &str) -> (result: Result<Model, AppError>)
        ensures
            row_result_view(result) == Self::spec_verify_login(state@, username@, password@),
    {
        match UserDao::find_by_username(state, username) {
            Ok(found) => Self::login(found, password),
            Err(e) => Err(e),
        }
    }
}

} // verus!
