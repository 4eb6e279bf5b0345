//! The request handlers: from a request in plain values to the envelope that
//! answers it, and what the boundary shows of an account.

use vstd::prelude::*;
use crate::dao::row_result_view;
use crate::dto::{ApiResponse, CreateUserRequest, LoginRequest, UpdateUserRequest, UserResponse};
use crate::entity::{clone_text, nullable_text_view, text_view, Gender, Model, ModelView};
use crate::error::{AppError, AppErrorView};
use crate::service::{may_hash_to, may_rehash_to, unknown_id, UserService};
use crate::state::AppState;

verus! {

/// What a handler answers: the envelope of a success, or the failure.
pub type ApiResult<T> = Result<ApiResponse<T>, AppError>;

/// What `chrono` prints for the instant `micros` microseconds after the Unix
/// epoch, as a date and a time of day in UTC; nothing for an instant outside
/// the years that `chrono` can express.
pub uninterp spec fn timestamp_text(micros: i64) -> Option<Seq<char>>;

/// Calls `chrono::DateTime::from_timestamp_micros` and prints the date and
/// time that it gives, without a zone, as `NaiveDateTime` displays it.
///
/// The result depends on `micros` alone; the contract names it.
#[verifier::external_body]
fn format_timestamp(micros: i64) -> (text: Option<String>)
    ensures
        text_view(text) == timestamp_text(micros),
{
    match chrono::DateTime::from_timestamp_micros(micros) {
        Some(instant) => Some(instant.naive_utc().to_string()),
        None => None,
    }
}

/// An account as the outside sees it, with its texts as sequences of characters.
pub struct UserResponseView {
    pub id: i32,
    pub username: Seq<char>,
    pub age: Option<i32>,
    pub gender: Gender,
    pub email: Option<Seq<char>>,
    pub created_at: Seq<char>,
    pub updated_at: Seq<char>,
}

impl View for UserResponse {
    type V = UserResponseView;

    open spec fn view(&self) -> UserResponseView {
        UserResponseView {
            id: self.id,
            username: self.username@,
            age: self.age,
            gender: self.gender,
            email: text_view(self.email),
            created_at: self.created_at@,
            updated_at: self.updated_at@,
        }
    }
}

/// The view of what `to_response` returns.
pub open spec fn response_result_view(result: Result<UserResponse, AppError>) -> Result<
    UserResponseView,
    AppErrorView,
> {
    match result {
        Ok(response) => Ok(response@),
        Err(e) => Err(e@),
    }
}

/// The failure to show an account whose timestamp has no date.
pub open spec fn undated_timestamp() -> AppErrorView {
    AppErrorView::InternalServer("timestamp outside the calendar"@)
}

/// What the outside sees of a row: its attributes without the password, the
/// two timestamps as dates; a failure where a timestamp has no date.
pub open spec fn spec_to_response(user: ModelView) -> Result<UserResponseView, AppErrorView> {
    match (timestamp_text(user.created_at), timestamp_text(user.updated_at)) {
        (Some(created_at), Some(updated_at)) => Ok(
            UserResponseView {
                id: user.id,
                username: user.username,
                age: user.age,
                gender: user.gender,
                email: user.email,
                created_at,
                updated_at,
            },
        ),
        _ => Err(undated_timestamp()),
    }
}

/// What the outside sees of the outcome of an operation that yields an account.
pub open spec fn spec_shown(outcome: Result<ModelView, AppErrorView>) -> Result<
    UserResponseView,
    AppErrorView,
> {
    match outcome {
        Ok(user) => spec_to_response(user),
        Err(e) => Err(e),
    }
}

/// The view of an account that may be absent, as the outside sees it.
pub open spec fn shown_view(account: Option<UserResponse>) -> Option<UserResponseView> {
    match account {
        Some(account) => Some(account@),
        None => None,
    }
}

/// `reply` is the envelope of a success that carries data under `message`.
pub open spec fn is_success<T>(reply: ApiResponse<T>, message: Seq<char>) -> bool {
    reply.code == 0 && reply.message@ == message && reply.data is Some
}

/// `result` answers with the account `expected` in the envelope of a
/// success, or with the failure `expected`.
pub open spec fn answers_with(
    result: ApiResult<UserResponse>,
    expected: Result<UserResponseView, AppErrorView>,
) -> bool {
    match expected {
        Ok(shown) => result matches Ok(reply) && is_success(reply, "success"@) && reply.data->0@ == shown,
        Err(e) => result matches Err(actual) && actual@ == e,
    }
}

/// What the outside sees of an account.
pub fn to_response(user: &Model) -> (result: Result<UserResponse, AppError>)
    ensures
        response_result_view(result) == spec_to_response(user@),
{
    let created_at = format_timestamp(user.created_at);
    let updated_at = format_timestamp(user.updated_at);
    match (created_at, updated_at) {
        (Some(created_at), Some(updated_at)) => Ok(
            UserResponse {
                id: user.id,
                username: user.username.clone(),
                age: user.age,
                gender: user.gender,
                email: clone_text(&user.email),
                created_at,
                updated_at,
            },
        ),
        _ => Err(AppError::InternalServer(String::from_str("timestamp outside the calendar"))),
    }
}

/// The answer to a request whose outcome is an account: the account as the
/// outside sees it, in the envelope of a success; or the failure.
pub fn account_reply(outcome: Result<Model, AppError>) -> (result: ApiResult<UserResponse>)
    ensures
        answers_with(result, spec_shown(row_result_view(outcome))),
{
    match outcome {
        Ok(user) => match to_response(&user) {
            Ok(shown) => Ok(ApiResponse::ok(shown)),
            Err(e) => Err(e),
        },
        Err(e) => Err(e),
    }
}

/// Handles a request to create an account.
pub fn create_user(state: &mut AppState, req: CreateUserRequest) -> (result: ApiResult<UserResponse>)
    ensures
        exists|hashed: Result<Seq<char>, Seq<char>>, now: i64|
            {
                let (after, outcome) = #[trigger] UserService::spec_create(
                    old(state)@,
                    req.username@,
                    hashed,
                    req.age,
                    req.gender,
                    text_view(req.email),
                    now,
                );
                &&& may_hash_to(req.password@, hashed)
                &&& final(state)@ == after
                &&& answers_with(result, spec_shown(outcome))
            },
        old(state).wf() ==> final(state).wf(),
{
    let outcome = UserService::create(state, req.username, req.password, req.age, req.gender, req.email);
    account_reply(outcome)
}

/// The answer to a request for the account with identifier `id`, once
/// storage has said which live account carries it: the account as the outside
/// sees it, in the envelope of a success; for an absent account the failure
/// that names the identifier.
pub fn found_reply(found: Option<Model>, id: i32) -> (result: ApiResult<Option<UserResponse>>)
    ensures
        match found {
            None => result matches Err(e) && e@ == unknown_id(id),
            Some(user) => match spec_to_response(user@) {
                Ok(shown) => result matches Ok(reply) && is_success(reply, "success"@) && shown_view(
                    reply.data->0,
                ) == Some(shown),
                Err(e) => result matches Err(actual) && actual@ == e,
            },
        },
{
    let user = match UserService::account_or_not_found(found, id) {
        Ok(user) => user,
        Err(e) => {
            return Err(e);
        },
    };
    match to_response(&user) {
        Ok(shown) => Ok(ApiResponse::ok(Some(shown))),
        Err(e) => Err(e),
    }
}

/// The answer to a request to delete an account: the envelope of a success
/// without data, or the failure.
pub fn deleted_reply(outcome: Result<(), AppError>) -> (result: ApiResult<()>)
    ensures
        match outcome {
            Ok(_) => result matches Ok(reply) && reply.code == 0 && reply.message@ == "删除成功"@
                && reply.data is None,
            Err(e) => result matches Err(actual) && actual@ == e@,
        },
{
    match outcome {
        Ok(_) => Ok(ApiResponse::ok_without_data("删除成功")),
        Err(e) => Err(e),
    }
}

/// Handles a request for the account with identifier `id`. An identifier that
/// no live account carries is answered with `NotFound`.
pub fn get_user(state: &AppState, id: i32) -> (result: ApiResult<Option<UserResponse>>)
    ensures
        match state@.find_by_id(id) {
            None => result matches Err(e) && e@ == unknown_id(id),
            Some(user) => match spec_to_response(user) {
                Ok(shown) => result matches Ok(reply) && is_success(reply, "success"@) && shown_view(
                    reply.data->0,
                ) == Some(shown),
                Err(e) => result matches Err(actual) && actual@ == e,
            },
        },
{
    match UserService::find_by_id(state, id) {
        Ok(found) => found_reply(found, id),
        Err(e) => Err(e),
    }
}

/// Handles a request to update the account with identifier `id`.
pub fn update_user(state: &mut AppState, id: i32, req: UpdateUserRequest) -> (result: ApiResult<
    UserResponse,
>)
    ensures
        exists|hashed: Option<Result<Seq<char>, Seq<char>>>, now: i64|
            {
                let (after, outcome) = #[trigger] UserService::spec_update(
                    old(state)@,
                    id,
                    text_view(req.username),
                    hashed,
                    req.age,
                    req.gender,
                    nullable_text_view(req.email),
                    now,
                );
                &&& may_rehash_to(text_view(req.password), hashed)
                &&& final(state)@ == after
                &&& answers_with(result, spec_shown(outcome))
            },
        old(state).wf() ==> final(state).wf(),
{
    let outcome = UserService::update(
        state,
        id,
        req.username,
        req.password,
        req.age,
        req.gender,
        req.email,
    );
    account_reply(outcome)
}

/// Handles a request to delete the account with identifier `id`.
pub fn delete_user(state: &mut AppState, id: i32) -> (result: ApiResult<()>)
    ensures
        exists|now: i64|
            {
                let (after, outcome) = #[trigger] UserService::spec_delete(old(state)@, id, now);
                &&& final(state)@ == after
                &&& match outcome {
                    Ok(_) => result matches Ok(reply) && reply.code == 0 && reply.message@ == "删除成功"@
                        && reply.data is None,
                    Err(e) => result matches Err(actual) && actual@ == e,
                }
            },
        old(state).wf() ==> final(state).wf(),
{
    let outcome = UserService::delete(state, id);
    deleted_reply(outcome)
}

/// Handles a request to authenticate.
pub fn login(state: &AppState, req: LoginRequest) -> (result: ApiResult<UserResponse>)
    ensures
        answers_with(result, spec_shown(UserService::spec_verify_login(state@, req.username@, req.password@))),
{
    let outcome = UserService::verify_login(state, req.username.as_str(), req.password.as_str());
    account_reply(outcome)
}

/// Password opacity: what the outside sees of an account does not depend on
/// its password. Two rows that differ in the password alone are shown alike.
pub proof fn law_response_hides_password(user: ModelView, other_password: Seq<char>)
    ensures
        spec_to_response(ModelView { password: other_password, ..user }) == spec_to_response(user),
{
}

} // verus!
