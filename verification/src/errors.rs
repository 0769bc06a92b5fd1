//! The error every service answers a refused request with.

use vstd::prelude::*;

verus! {

/// A refused request: the kind of refusal and the message shown to the caller.
#[derive(Debug)]
pub enum AppError {
    BadRequest(String),
    Unauthorized(String),
    NotFound(String),
    Conflict(String),
    /// The caller is known but may not do this.
    Forbidden(String),
    Internal(String),
}

/// The HTTP status that answers each kind of refusal.
pub open spec fn status_of(e: AppError) -> u16 {
    match e {
        AppError::BadRequest(_) => 400,
        AppError::Unauthorized(_) => 401,
        AppError::NotFound(_) => 404,
        AppError::Conflict(_) => 409,
        AppError::Forbidden(_) => 403,
        AppError::Internal(_) => 500,
    }
}

/// The message carried by a refusal.
pub open spec fn message_of(e: AppError) -> Seq<char> {
    match e {
        AppError::BadRequest(m) => m@,
        AppError::Unauthorized(m) => m@,
        AppError::NotFound(m) => m@,
        AppError::Conflict(m) => m@,
        AppError::Forbidden(m) => m@,
        AppError::Internal(m) => m@,
    }
}

impl AppError {
    /// The HTTP status code of this refusal.
    pub fn status_code(&self) -> (c: u16)
        ensures
            c == status_of(*self),
    {
        match self {
            AppError::BadRequest(_) => 400,
            AppError::Unauthorized(_) => 401,
            AppError::NotFound(_) => 404,
            AppError::Conflict(_) => 409,
            AppError::Forbidden(_) => 403,
            AppError::Internal(_) => 500,
        }
    }

    /// The message of this refusal.
    pub fn message(&self) -> (m: &String)
        ensures
            m@ == message_of(*self),
    {
        match self {
            AppError::BadRequest(m) => m,
            AppError::Unauthorized(m) => m,
            AppError::NotFound(m) => m,
            AppError::Conflict(m) => m,
            AppError::Forbidden(m) => m,
            AppError::Internal(m) => m,
        }
    }
}

} // verus!
