//! The error taxonomy surfaced to clients.
use vstd::prelude::*;

verus! {

/// Errors surfaced by the cache: validation and policy failures, misses, and
/// failures of a collaborator (storage backend, upstream, serialization).
#[derive(Debug, Clone)]
pub enum AppError {
    BadRequest(String),
    NotFound(String),
    Internal(String),
}

/// `e` is a `BadRequest` carrying the message `m`.
pub open spec fn bad_request_with(e: AppError, m: Seq<char>) -> bool {
    e matches AppError::BadRequest(x) && x@ == m
}

/// `e` is a `NotFound` carrying the message `m`.
pub open spec fn not_found_with(e: AppError, m: Seq<char>) -> bool {
    e matches AppError::NotFound(x) && x@ == m
}

impl AppError {
    pub fn bad_request(message: &str) -> (r: Self)
        ensures
            bad_request_with(r, message@),
    {
        AppError::BadRequest(message.to_string())
    }

    pub fn not_found(message: &str) -> (r: Self)
        ensures
            not_found_with(r, message@),
    {
        AppError::NotFound(message.to_string())
    }

    pub fn internal(message: &str) -> (r: Self)
        ensures
            r matches AppError::Internal(x) && x@ == message@,
    {
        AppError::Internal(message.to_string())
    }

    /// HTTP status of the error: 400, 404 or 500.
    pub fn status_code(&self) -> (r: u16)
        ensures
            r == match self {
                AppError::BadRequest(_) => 400u16,
                AppError::NotFound(_) => 404u16,
                AppError::Internal(_) => 500u16,
            },
    {
        match self {
            AppError::BadRequest(_) => 400,
            AppError::NotFound(_) => 404,
            AppError::Internal(_) => 500,
        }
    }

    /// The message shown to clients; internal details are not disclosed.
    pub fn message(&self) -> (r: String)
        ensures
            r@ == match self {
                AppError::BadRequest(m) => m@,
                AppError::NotFound(m) => m@,
                AppError::Internal(_) => "internal error"@,
            },
    {
        match self {
            AppError::BadRequest(m) => m.clone(),
            AppError::NotFound(m) => m.clone(),
            AppError::Internal(_) => "internal error".to_string(),
        }
    }
}

} // verus!
