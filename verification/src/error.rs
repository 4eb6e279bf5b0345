//! The closed set of failure kinds shared by the service and the boundary,
//! and the one place where a failure becomes a transport status.

use vstd::prelude::*;
use crate::dto::ApiResponse;

verus! {

/// Numeric code carried in the response envelope.
pub type ErrorCode = u16;

/// Failure kinds of the application, each with its detail text.
#[derive(Debug)]
pub enum AppError {
    /// Hashing or storage failed; the detail stays internal.
    InternalServer(String),
    /// The request could not be understood.
    BadRequest(String),
    /// The credentials were not accepted.
    Unauthorized(String),
    /// No live account answers to the identifier.
    NotFound(String),
    /// The username is taken by a live account.
    AlreadyExists(String),
    /// The request collides with the current state.
    Conflict(String),
}

/// A failure with its detail as a sequence of characters.
pub enum AppErrorView {
    InternalServer(Seq<char>),
    BadRequest(Seq<char>),
    Unauthorized(Seq<char>),
    NotFound(Seq<char>),
    AlreadyExists(Seq<char>),
    Conflict(Seq<char>),
}

impl View for AppError {
    type V = AppErrorView;

    open spec fn view(&self) -> AppErrorView {
        match self {
            AppError::InternalServer(msg) => AppErrorView::InternalServer(msg@),
            AppError::BadRequest(msg) => AppErrorView::BadRequest(msg@),
            AppError::Unauthorized(msg) => AppErrorView::Unauthorized(msg@),
            AppError::NotFound(msg) => AppErrorView::NotFound(msg@),
            AppError::AlreadyExists(msg) => AppErrorView::AlreadyExists(msg@),
            AppError::Conflict(msg) => AppErrorView::Conflict(msg@),
        }
    }
}

impl AppErrorView {
    /// The envelope code of each kind.
    pub open spec fn code(self) -> ErrorCode {
        match self {
            AppErrorView::InternalServer(_) => 5000,
            AppErrorView::BadRequest(_) => 4000,
            AppErrorView::Unauthorized(_) => 4010,
            AppErrorView::NotFound(_) => 4040,
            AppErrorView::AlreadyExists(_) => 4090,
            AppErrorView::Conflict(_) => 4090,
        }
    }

    /// The detail text of the failure.
    pub open spec fn message(self) -> Seq<char> {
        match self {
            AppErrorView::InternalServer(msg) => msg,
            AppErrorView::BadRequest(msg) => msg,
            AppErrorView::Unauthorized(msg) => msg,
            AppErrorView::NotFound(msg) => msg,
            AppErrorView::AlreadyExists(msg) => msg,
            AppErrorView::Conflict(msg) => msg,
        }
    }

    /// The HTTP status that the boundary answers with.
    pub open spec fn status(self) -> u16 {
        match self {
            AppErrorView::InternalServer(_) => 500,
            AppErrorView::BadRequest(_) => 400,
            AppErrorView::Unauthorized(_) => 401,
            AppErrorView::NotFound(_) => 404,
            AppErrorView::AlreadyExists(_) => 409,
            AppErrorView::Conflict(_) => 409,
        }
    }

    /// The text that leaves the process: the detail, except for an internal
    /// failure, whose detail is replaced by a fixed text.
    pub open spec fn outward_message(self) -> Seq<char> {
        match self {
            AppErrorView::InternalServer(_) => "Internal server error"@,
            _ => self.message(),
        }
    }

    /// The one-line description of the failure.
    pub open spec fn description(self) -> Seq<char> {
        match self {
            AppErrorView::InternalServer(_) => "Internal server error"@,
            AppErrorView::BadRequest(msg) => "Bad request: "@ + msg,
            AppErrorView::Unauthorized(_) => "Unauthorized"@,
            AppErrorView::NotFound(msg) => "Resource not found: "@ + msg,
            AppErrorView::AlreadyExists(msg) => "Resource already exists: "@ + msg,
            AppErrorView::Conflict(msg) => "Conflict: "@ + msg,
        }
    }
}

impl AppError {
    /// The envelope code of the failure.
    pub fn code(&self) -> (code: ErrorCode)
        ensures
            code == self@.code(),
    {
        match self {
            AppError::InternalServer(_) => 5000,
            AppError::BadRequest(_) => 4000,
            AppError::Unauthorized(_) => 4010,
            AppError::NotFound(_) => 4040,
            AppError::AlreadyExists(_) => 4090,
            AppError::Conflict(_) => 4090,
        }
    }

    /// The detail text of the failure.
    pub fn message(&self) -> (msg: String)
        ensures
            msg@ == self@.message(),
    {
        match self {
            AppError::InternalServer(msg) => msg.clone(),
            AppError::BadRequest(msg) => msg.clone(),
            AppError::Unauthorized(msg) => msg.clone(),
            AppError::NotFound(msg) => msg.clone(),
            AppError::AlreadyExists(msg) => msg.clone(),
            AppError::Conflict(msg) => msg.clone(),
        }
    }

    /// The HTTP status that the boundary answers with.
    pub fn status(&self) -> (status: u16)
        ensures
            status == self@.status(),
    {
        match self {
            AppError::InternalServer(_) => 500,
            AppError::BadRequest(_) => 400,
            AppError::Unauthorized(_) => 401,
            AppError::NotFound(_) => 404,
            AppError::AlreadyExists(_) => 409,
            AppError::Conflict(_) => 409,
        }
    }

    /// The text that leaves the process: the detail, except for an internal
    /// failure, whose detail is kept back.
    pub fn outward_message(&self) -> (msg: String)
        ensures
            msg@ == self@.outward_message(),
    {
        match self {
            AppError::InternalServer(_) => String::from_str("Internal server error"),
            _ => self.message(),
        }
    }

    /// The one-line description of the failure.
    pub fn description(&self) -> (text: String)
        ensures
            text@ == self@.description(),
    {
        match self {
            AppError::InternalServer(_) => String::from_str("Internal server error"),
            AppError::BadRequest(msg) => String::from_str("Bad request: ").concat(msg.as_str()),
            AppError::Unauthorized(_) => String::from_str("Unauthorized"),
            AppError::NotFound(msg) => String::from_str("Resource not found: ").concat(
                msg.as_str(),
            ),
            AppError::AlreadyExists(msg) => String::from_str("Resource already exists: ").concat(
                msg.as_str(),
            ),
            AppError::Conflict(msg) => String::from_str("Conflict: ").concat(msg.as_str()),
        }
    }

    /// A storage failure, with the backend's own words as its detail.
    pub fn from_db_err(detail: String) -> (err: AppError)
        ensures
            err@ == AppErrorView::InternalServer(detail@),
    {
        AppError::InternalServer(detail)
    }

    /// The status and the envelope that the boundary sends for this failure.
    pub fn into_response(self) -> (response: (u16, ApiResponse<()>))
        ensures
            response.0 == self@.status(),
            response.1.code == self@.code(),
            response.1.message@ == self@.outward_message(),
            response.1.data is None,
    {
        let status = self.status();
        let message = self.outward_message();
        let body = ApiResponse::error(self.code(), message.as_str());
        (status, body)
    }
}

/// Failure kinds of the account rules, each with its detail text.
#[derive(Debug)]
pub enum UserError {
    NotFound(String),
    AlreadyExists(String),
    InvalidPassword(String),
    PasswordHashError(String),
}

impl UserError {
    /// The one-line description of each kind.
    pub open spec fn spec_description(&self) -> Seq<char> {
        match self {
            UserError::NotFound(_) => "User not found"@,
            UserError::AlreadyExists(_) => "User already exists"@,
            UserError::InvalidPassword(_) => "Invalid password"@,
            UserError::PasswordHashError(_) => "Password hash error"@,
        }
    }

    /// The one-line description of the failure.
    pub fn description(&self) -> (text: String)
        ensures
            text@ == self.spec_description(),
    {
        match self {
            UserError::NotFound(_) => String::from_str("User not found"),
            UserError::AlreadyExists(_) => String::from_str("User already exists"),
            UserError::InvalidPassword(_) => String::from_str("Invalid password"),
            UserError::PasswordHashError(_) => String::from_str("Password hash error"),
        }
    }
}

} // verus!
