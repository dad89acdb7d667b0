use vstd::prelude::*;

verus! {

/// Errors that the server's logic can answer a request with.
#[derive(Debug, Clone, PartialEq, Eq)]
pub enum AppError {
    /// Authentication failed (401).
    Auth(String),
    /// The caller is not allowed to do this (403).
    Forbidden,
    /// The resource does not exist (404).
    NotFound,
    /// The request is malformed (400).
    BadRequest(String),
    /// The resource already exists (409).
    Conflict(String),
    /// Too many requests (429).
    RateLimited,
    /// Server-side failure (500).
    Internal(String),
}


/// Whether `res` is a `BadRequest` with the message `msg`.
pub open spec fn is_bad_request<T>(res: Result<T, AppError>, msg: Seq<char>) -> bool {
    res matches Err(AppError::BadRequest(m)) && m@ == msg
}

/// Whether `res` is a `Conflict` with the message `msg`.
pub open spec fn is_conflict<T>(res: Result<T, AppError>, msg: Seq<char>) -> bool {
    res matches Err(AppError::Conflict(m)) && m@ == msg
}

} // verus!
