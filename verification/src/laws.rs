//! What holds of the account service as a whole, proved from the functions
//! that state its operations.

use vstd::prelude::*;
use crate::entity::{Gender, ModelView};
use crate::error::AppErrorView;
use crate::service::{duplicate_username, invalid_credential, UserService};
use crate::state::{Changes, Lookup, UserTable};

verus! {

/// Insert, update and soft delete keep the shape of the table.
pub proof fn law_writes_keep_shape(
    table: UserTable,
    username: Seq<char>,
    password: Seq<char>,
    age: Option<i32>,
    gender: Gender,
    email: Option<Seq<char>>,
    id: i32,
    changes: Changes,
    now: i64,
)
    requires
        table.wf(),
    ensures
        table.insert(username, password, age, gender, email, now).0.wf(),
        table.update(id, changes, now).0.wf(),
        table.soft_delete(id, now).0.wf(),
{
}

/// A row that is deleted stays as it is, whatever is written to the table: no
/// insert, update or soft delete brings it back or changes it.
pub proof fn law_deleted_rows_stay(
    table: UserTable,
    username: Seq<char>,
    password: Seq<char>,
    age: Option<i32>,
    gender: Gender,
    email: Option<Seq<char>>,
    id: i32,
    changes: Changes,
    now: i64,
    i: int,
)
    requires
        0 <= i < table.rows.len(),
        table.rows[i].is_deleted,
    ensures
        table.insert(username, password, age, gender, email, now).0.rows[i] == table.rows[i],
        table.update(id, changes, now).0.rows[i] == table.rows[i],
        table.soft_delete(id, now).0.rows[i] == table.rows[i],
{
}

/// The row that an insert returns is the one that the table then holds under
/// its identifier, and the identifier is positive and new.
pub proof fn law_inserted_row_is_found(
    table: UserTable,
    username: Seq<char>,
    password: Seq<char>,
    age: Option<i32>,
    gender: Gender,
    email: Option<Seq<char>>,
    now: i64,
)
    requires
        table.wf(),
        table.insert(username, password, age, gender, email, now).1 is Ok,
    ensures
        ({
            let (after, result) = table.insert(username, password, age, gender, email, now);
            let row = result->Ok_0;
            &&& row.id >= 1
            &&& forall|j: int| 0 <= j < table.rows.len() ==> (#[trigger] table.rows[j]).id != row.id
            &&& after.find_by_id(row.id) == Some(row)
        }),
{
    let (after, result) = table.insert(username, password, age, gender, email, now);
    let row = result->Ok_0;
    let at = table.rows.len() as int;
    assert(after.rows[at] == row);
    assert(after.answers(at, Lookup::Id(row.id)));
    after.lemma_id_position(at, row.id);
}

/// Uniqueness: once an account has been created under a username, creating
/// another under the same username fails with `AlreadyExists` and changes
/// nothing, whatever else the second request holds.
pub proof fn law_second_create_is_refused(
    table: UserTable,
    username: Seq<char>,
    first_hashed: Result<Seq<char>, Seq<char>>,
    first_age: Option<i32>,
    first_gender: Gender,
    first_email: Option<Seq<char>>,
    first_now: i64,
    second_hashed: Result<Seq<char>, Seq<char>>,
    second_age: Option<i32>,
    second_gender: Gender,
    second_email: Option<Seq<char>>,
    second_now: i64,
)
    requires
        UserService::spec_create(
            table,
            username,
            first_hashed,
            first_age,
            first_gender,
            first_email,
            first_now,
        ).1 is Ok,
    ensures
        ({
            let after = UserService::spec_create(
                table,
                username,
                first_hashed,
                first_age,
                first_gender,
                first_email,
                first_now,
            ).0;
            UserService::spec_create(
                after,
                username,
                second_hashed,
                second_age,
                second_gender,
                second_email,
                second_now,
            ) == (after, Err::<ModelView, AppErrorView>(duplicate_username(username)))
        }),
{
    let after = UserService::spec_create(
        table,
        username,
        first_hashed,
        first_age,
        first_gender,
        first_email,
        first_now,
    ).0;
    assert(after.holds_username(table.rows.len() as int, username, None));
}

/// Uniqueness, at any later time: as long as a live account holds a username,
/// creating an account under that username fails with `AlreadyExists` and
/// changes nothing.
pub proof fn law_create_is_refused_while_username_is_held(
    table: UserTable,
    holder: int,
    username: Seq<char>,
    hashed: Result<Seq<char>, Seq<char>>,
    age: Option<i32>,
    gender: Gender,
    email: Option<Seq<char>>,
    now: i64,
)
    requires
        0 <= holder < table.rows.len(),
        !table.rows[holder].is_deleted,
        table.rows[holder].username == username,
    ensures
        UserService::spec_create(table, username, hashed, age, gender, email, now) == (
            table,
            Err::<ModelView, AppErrorView>(duplicate_username(username)),
        ),
{
    assert(table.holds_username(holder, username, None));
}

/// Soft-delete exclusion: after an account is deleted, no lookup by its
/// identifier finds it, and its username is free again: where no other live
/// account holds that username, the hasher does not fail and an identifier is
/// left, creating an account under that username succeeds, with a new identifier.
pub proof fn law_delete_frees_identifier_and_username(
    table: UserTable,
    id: i32,
    deleted_at: i64,
    digest: Seq<char>,
    age: Option<i32>,
    gender: Gender,
    email: Option<Seq<char>>,
    created_at: i64,
)
    requires
        table.wf(),
        table.find_by_id(id) matches Some(account) && !table.exists_by_username(account.username, Some(id)),
        UserService::spec_delete(table, id, deleted_at).1 is Ok,
        table.next_id < i32::MAX,
    ensures
        ({
            let account = table.find_by_id(id)->Some_0;
            let after = UserService::spec_delete(table, id, deleted_at).0;
            let (last, created) = UserService::spec_create(
                after,
                account.username,
                Ok(digest),
                age,
                gender,
                email,
                created_at,
            );
            &&& after.find_by_id(id) is None
            &&& after.find_by_username(account.username) is None
            &&& !after.exists_by_username(account.username, None)
            &&& created matches Ok(row) && row.id != id && row.username == account.username
            &&& last.find_by_id(id) is None
        }),
{
    let account = table.find_by_id(id)->Some_0;
    let at = table.position(Lookup::Id(id))->Some_0;
    let after = UserService::spec_delete(table, id, deleted_at).0;
    assert(table.first_answer(at, Lookup::Id(id)));
    assert(after.rows[at].is_deleted);
    assert forall|j: int| 0 <= j < after.rows.len() implies !after.answers(j, Lookup::Id(id)) by {
        if j != at {
            assert(after.rows[j] == table.rows[j]);
            if j < at {
                assert(table.rows[j].id < table.rows[at].id);
            } else {
                assert(table.rows[at].id < table.rows[j].id);
            }
        }
    }
    after.lemma_position_is_none(Lookup::Id(id));
    assert forall|j: int| 0 <= j < after.rows.len() implies !after.answers(
        j,
        Lookup::Username(account.username),
    ) by {
        if j != at {
            assert(after.rows[j] == table.rows[j]);
            if table.rows[j].id != id {
                assert(!table.holds_username(j, account.username, Some(id)));
            } else if j < at {
                assert(table.rows[j].id < table.rows[at].id);
            } else {
                assert(table.rows[at].id < table.rows[j].id);
            }
        }
    }
    after.lemma_position_is_none(Lookup::Username(account.username));
    assert(!after.exists_by_username(account.username, None)) by {
        if after.exists_by_username(account.username, None) {
            let j = choose|j: int| after.holds_username(j, account.username, None);
            assert(after.answers(j, Lookup::Username(account.username)));
        }
    }
    let (last, created) = UserService::spec_create(
        after,
        account.username,
        Ok(digest),
        age,
        gender,
        email,
        created_at,
    );
    assert forall|j: int| 0 <= j < last.rows.len() implies !last.answers(j, Lookup::Id(id)) by {
        if j < after.rows.len() {
            assert(last.rows[j] == after.rows[j]);
            assert(!after.answers(j, Lookup::Id(id)));
        }
    }
    last.lemma_position_is_none(Lookup::Id(id));
}

/// Partial update: an update that succeeds writes every given field and leaves
/// every other field of the account, and every other row of the table, as it
/// was; the account keeps its identifier and its creation time, stays live,
/// and its `updated_at` moves strictly forward.
pub proof fn law_update_touches_given_fields_only(
    table: UserTable,
    id: i32,
    username: Option<Seq<char>>,
    hashed: Option<Result<Seq<char>, Seq<char>>>,
    age: Option<Option<i32>>,
    gender: Option<Gender>,
    email: Option<Option<Seq<char>>>,
    now: i64,
)
    requires
        UserService::spec_update(table, id, username, hashed, age, gender, email, now).1 is Ok,
    ensures
        ({
            let (after, result) = UserService::spec_update(table, id, username, hashed, age, gender, email, now);
            let row = result->Ok_0;
            &&& table.find_by_id(id) matches Some(before)
            &&& table.position(Lookup::Id(id)) matches Some(at)
            &&& row.id == id
            &&& row.created_at == before.created_at
            &&& !row.is_deleted
            &&& row.updated_at > before.updated_at
            &&& row.username == if username is Some { username->0 } else { before.username }
            &&& hashed is None ==> row.password == before.password
            &&& hashed matches Some(outcome) ==> outcome == Ok::<Seq<char>, Seq<char>>(row.password)
            &&& row.age == if age is Some { age->0 } else { before.age }
            &&& row.gender == if gender is Some { gender->0 } else { before.gender }
            &&& row.email == if email is Some { email->0 } else { before.email }
            &&& after.next_id == table.next_id
            &&& after.rows.len() == table.rows.len()
            &&& after.rows[at] == row
            &&& forall|j: int| 0 <= j < table.rows.len() && j != at ==> after.rows[j] == table.rows[j]
        }),
{
    let at = table.position(Lookup::Id(id))->Some_0;
    assert(table.first_answer(at, Lookup::Id(id)));
}

/// A soft delete that succeeds marks the account deleted, moves its
/// `updated_at` strictly forward, and leaves everything else as it was.
pub proof fn law_delete_marks_one_row(table: UserTable, id: i32, now: i64)
    requires
        UserService::spec_delete(table, id, now).1 is Ok,
    ensures
        ({
            let after = UserService::spec_delete(table, id, now).0;
            &&& table.find_by_id(id) matches Some(before)
            &&& table.position(Lookup::Id(id)) matches Some(at)
            &&& after.rows[at] == before.deleted(after.rows[at].updated_at)
            &&& after.rows[at].updated_at > before.updated_at
            &&& after.next_id == table.next_id
            &&& after.rows.len() == table.rows.len()
            &&& forall|j: int| 0 <= j < table.rows.len() && j != at ==> after.rows[j] == table.rows[j]
        }),
{
    let at = table.position(Lookup::Id(id))->Some_0;
    assert(table.first_answer(at, Lookup::Id(id)));
}

/// The service keeps usernames unique among live accounts: a table in which
/// no two live accounts share a username is still such a table after a
/// create, an update or a delete.
pub proof fn law_service_keeps_usernames_unique(
    table: UserTable,
    id: i32,
    username: Seq<char>,
    new_username: Option<Seq<char>>,
    hashed: Result<Seq<char>, Seq<char>>,
    rehashed: Option<Result<Seq<char>, Seq<char>>>,
    age: Option<i32>,
    new_age: Option<Option<i32>>,
    gender: Gender,
    new_gender: Option<Gender>,
    email: Option<Seq<char>>,
    new_email: Option<Option<Seq<char>>>,
    now: i64,
)
    requires
        table.wf(),
        table.usernames_unique(),
    ensures
        UserService::spec_create(table, username, hashed, age, gender, email, now).0.usernames_unique(),
        UserService::spec_update(
            table,
            id,
            new_username,
            rehashed,
            new_age,
            new_gender,
            new_email,
            now,
        ).0.usernames_unique(),
        UserService::spec_delete(table, id, now).0.usernames_unique(),
{
    let created = UserService::spec_create(table, username, hashed, age, gender, email, now).0;
    assert(created.usernames_unique()) by {
        assert forall|i: int, j: int|
            0 <= i < j < created.rows.len() && (#[trigger] created.rows[i]).is_live() && (
            #[trigger] created.rows[j]).is_live() implies created.rows[i].username
            != created.rows[j].username by {
            if j == table.rows.len() {
                assert(!table.holds_username(i, username, None));
            }
        }
    }
    let updated = UserService::spec_update(
        table,
        id,
        new_username,
        rehashed,
        new_age,
        new_gender,
        new_email,
        now,
    ).0;
    assert(updated.usernames_unique()) by {
        if updated != table {
            let at = table.position(Lookup::Id(id))->Some_0;
            assert(table.first_answer(at, Lookup::Id(id)));
            assert forall|i: int, j: int|
                0 <= i < j < updated.rows.len() && (#[trigger] updated.rows[i]).is_live() && (
                #[trigger] updated.rows[j]).is_live() implies updated.rows[i].username
                != updated.rows[j].username by {
                assert(table.rows[i].is_live() && table.rows[j].is_live());
                if new_username is Some {
                    if i == at {
                        assert(table.rows[at].id < table.rows[j].id);
                        assert(!table.holds_username(j, new_username->0, Some(id)));
                    } else if j == at {
                        assert(table.rows[i].id < table.rows[at].id);
                        assert(!table.holds_username(i, new_username->0, Some(id)));
                    }
                }
            }
        }
    }
    let deleted = UserService::spec_delete(table, id, now).0;
    assert(deleted.usernames_unique()) by {
        if deleted != table {
            let at = table.position(Lookup::Id(id))->Some_0;
            assert(table.first_answer(at, Lookup::Id(id)));
            assert forall|i: int, j: int|
                0 <= i < j < deleted.rows.len() && (#[trigger] deleted.rows[i]).is_live() && (
                #[trigger] deleted.rows[j]).is_live() implies deleted.rows[i].username
                != deleted.rows[j].username by {
                assert(table.rows[i].is_live() && table.rows[j].is_live());
            }
        }
    }
}

/// A lookup by username finds an account exactly when some live account
/// holds the username, and the account it finds is live and holds it.
pub proof fn law_lookup_agrees_with_existence(table: UserTable, username: Seq<char>)
    ensures
        table.find_by_username(username) is Some <==> table.exists_by_username(username, None),
        table.find_by_username(username) matches Some(account) ==> !account.is_deleted && account.username
            == username,
{
    if table.exists_by_username(username, None) {
        let i = choose|i: int| table.holds_username(i, username, None);
        table.lemma_position_exists(i, Lookup::Username(username));
    }
    if table.find_by_username(username) is Some {
        let at = table.position(Lookup::Username(username))->Some_0;
        assert(table.first_answer(at, Lookup::Username(username)));
        assert(table.holds_username(at, username, None));
    }
}

/// Authentication indistinguishability: a username that no live account holds
/// and a wrong password for a username that one holds give the same failure,
/// hence the same status, code and message at the boundary.
pub proof fn law_login_failures_are_alike(
    table: UserTable,
    unknown_username: Seq<char>,
    any_password: Seq<char>,
    known_username: Seq<char>,
    wrong_password: Seq<char>,
)
    requires
        table.find_by_username(unknown_username) is None,
        table.find_by_username(known_username) matches Some(account) && UserService::spec_verify_login(
            table,
            known_username,
            wrong_password,
        ) is Err,
    ensures
        UserService::spec_verify_login(table, unknown_username, any_password)
            == UserService::spec_verify_login(table, known_username, wrong_password),
        UserService::spec_verify_login(table, unknown_username, any_password) == Err::<
            ModelView,
            AppErrorView,
        >(invalid_credential()),
        invalid_credential().status() == 401,
{
}

} // verus!
