//! The shapes that cross the boundary: the response envelope and the account
//! as it is shown to the outside.

use vstd::prelude::*;
use crate::entity::Gender;

verus! {

/// The response envelope: a code, a message and, on success, the data.
///
/// Code 0 means success; a failure carries the code of its kind and no data.
pub struct ApiResponse<T> {
    pub code: u16,
    pub message: String,
    pub data: Option<T>,
}

impl<T> ApiResponse<T> {
    /// Success with data.
    pub fn ok(data: T) -> (response: Self)
        ensures
            response.code == 0,
            response.message@ == "success"@,
            response.data == Some(data),
    {
        Self { code: 0, message: "success".to_string(), data: Some(data) }
    }

    /// Success with data and a message of the caller's choosing.
    pub fn ok_with_message(data: T, message: &str) -> (response: Self)
        ensures
            response.code == 0,
            response.message@ == message@,
            response.data == Some(data),
    {
        Self { code: 0, message: message.to_string(), data: Some(data) }
    }
}

impl ApiResponse<()> {
    /// Failure: the code of its kind, its message, no data.
    pub fn error(code: u16, message: &str) -> (response: Self)
        ensures
            response.code == code,
            response.message@ == message@,
            response.data is None,
    {
        Self { code, message: message.to_string(), data: None }
    }

    /// Success without data.
    pub fn ok_without_data(message: &str) -> (response: Self)
        ensures
            response.code == 0,
            response.message@ == message@,
            response.data is None,
    {
        Self { code: 0, message: message.to_string(), data: None }
    }
}

/// Failure envelope for a bare transport status.
pub fn error_response(status: u16, message: &str) -> (response: ApiResponse<()>)
    ensures
        response.code == status,
        response.message@ == message@,
        response.data is None,
{
    ApiResponse::error(status, message)
}

/// A request to create an account.
pub struct CreateUserRequest {
    pub username: String,
    pub password: String,
    pub age: Option<i32>,
    pub gender: Gender,
    pub email: Option<String>,
}

/// A request to update an account. A field that is `None` is left as it is;
/// for `age` and `email`, `Some(None)` clears the field.
pub struct UpdateUserRequest {
    pub username: Option<String>,
    pub password: Option<String>,
    pub age: Option<Option<i32>>,
    pub gender: Option<Gender>,
    pub email: Option<Option<String>>,
}

/// A request to authenticate.
pub struct LoginRequest {
    pub username: String,
    pub password: String,
}

/// An account as the outside sees it: every attribute but the password.
pub struct UserResponse {
    pub id: i32,
    pub username: String,
    pub age: Option<i32>,
    pub gender: Gender,
    pub email: Option<String>,
    pub created_at: String,
    pub updated_at: String,
}

/// A page of accounts as the outside sees them.
pub struct UserListResponse {
    pub users: Vec<UserResponse>,
    pub total: usize,
}

} // verus!
