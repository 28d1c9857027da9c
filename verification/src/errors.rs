//! The status codes and error values that the handlers answer with.

use vstd::prelude::*;

verus! {

/// The HTTP statuses that the service answers with.
#[derive(Clone, Copy, Debug, PartialEq, Eq, Structural)]
pub enum HttpStatus {
    Created,
    BadRequest,
    Unauthorized,
    InternalServerError,
}

impl HttpStatus {
    /// The numeric status code.
    pub open spec fn spec_code(self) -> u16 {
        match self {
            HttpStatus::Created => 201,
            HttpStatus::BadRequest => 400,
            HttpStatus::Unauthorized => 401,
            HttpStatus::InternalServerError => 500,
        }
    }

    /// The numeric status code.
    pub fn code(&self) -> (c: u16)
        ensures
            c == self.spec_code(),
    {
        match self {
            HttpStatus::Created => 201,
            HttpStatus::BadRequest => 400,
            HttpStatus::Unauthorized => 401,
            HttpStatus::InternalServerError => 500,
        }
    }
}

/// A refused request: the status and the text of the answer.
pub type Rejection = (HttpStatus, String);

/// Builds a rejection from a status and a message.
pub fn reject(status: HttpStatus, message: &str) -> (r: Rejection)
    ensures
        r.0 == status,
        r.1@ == message@,
{
    (status, String::from_str(message))
}

/// `r` is a rejection with this status and this message.
pub open spec fn rejects_with<T>(r: Result<T, Rejection>, status: HttpStatus, message: Seq<char>) -> bool {
    match r {
        Err((s, m)) => s == status && m@ == message,
        Ok(_) => false,
    }
}

/// A result with its rejection's message taken by its characters.
pub open spec fn outcome_view<T>(r: Result<T, Rejection>) -> Result<T, (HttpStatus, Seq<char>)> {
    match r {
        Ok(v) => Ok(v),
        Err((s, m)) => Err((s, m@)),
    }
}

/// The errors of the image handlers.
#[derive(Clone, Debug, PartialEq, Eq)]
pub enum AppError {
    BadRequest(String),
    InternalServerError(String),
}

impl AppError {
    /// The status this error is answered with.
    pub open spec fn spec_status(self) -> HttpStatus {
        match self {
            AppError::BadRequest(_) => HttpStatus::BadRequest,
            AppError::InternalServerError(_) => HttpStatus::InternalServerError,
        }
    }

    /// The message this error carries.
    pub open spec fn message_view(self) -> Seq<char> {
        match self {
            AppError::BadRequest(m) => m@,
            AppError::InternalServerError(m) => m@,
        }
    }

    /// The status this error is answered with.
    pub fn status(&self) -> (s: HttpStatus)
        ensures
            s == self.spec_status(),
    {
        match self {
            AppError::BadRequest(_) => HttpStatus::BadRequest,
            AppError::InternalServerError(_) => HttpStatus::InternalServerError,
        }
    }

    /// The message this error carries.
    pub fn message(&self) -> (m: &str)
        ensures
            m@ == self.message_view(),
    {
        match self {
            AppError::BadRequest(m) => m.as_str(),
            AppError::InternalServerError(m) => m.as_str(),
        }
    }
}

/// `r` failed with a bad-request error carrying `message`.
pub open spec fn bad_request<T>(r: Result<T, AppError>, message: Seq<char>) -> bool {
    match r {
        Err(AppError::BadRequest(m)) => m@ == message,
        _ => false,
    }
}

/// `r` failed with an internal-server error carrying `message`.
pub open spec fn internal_error<T>(r: Result<T, AppError>, message: Seq<char>) -> bool {
    match r {
        Err(AppError::InternalServerError(m)) => m@ == message,
        _ => false,
    }
}

} // verus!
