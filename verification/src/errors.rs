//! The error taxonomy: storage failures and missing resources, and how each
//! maps to an HTTP status and a response body.

use vstd::prelude::*;

verus! {

/// HTTP status for a successful operation.
pub const STATUS_OK: u16 = 200;

/// HTTP status for a request that supplied nothing to do.
pub const STATUS_BAD_REQUEST: u16 = 400;

/// HTTP status for a well-formed request naming a row that does not exist.
pub const STATUS_NOT_FOUND: u16 = 404;

/// HTTP status for an underlying storage failure.
pub const STATUS_INTERNAL_SERVER_ERROR: u16 = 500;

/// A failure surfaced to the caller: either the storage layer failed (the
/// driver's error text is carried along), or the request named a row that
/// does not exist.
#[derive(Debug)]
pub enum AppError {
    /// Wraps any underlying storage failure, carrying the driver's error text.
    DatabaseError(String),
    /// A well-formed request referenced a resource that does not exist.
    NotFound,
}

impl AppError {
    /// The HTTP status this error maps to: a server-side failure for a
    /// storage error, "not found" for a missing resource.
    pub fn status_code(&self) -> (r: u16)
        ensures
            self is DatabaseError ==> r == STATUS_INTERNAL_SERVER_ERROR,
            self is NotFound ==> r == STATUS_NOT_FOUND,
    {
        match self {
            AppError::DatabaseError(_) => STATUS_INTERNAL_SERVER_ERROR,
            AppError::NotFound => STATUS_NOT_FOUND,
        }
    }

    /// The response body this error maps to: the underlying error text for a
    /// storage failure, a fixed message for a missing resource.
    pub fn error_body(&self) -> (r: String)
        ensures
            self matches AppError::DatabaseError(m) ==> r@ == m@,
            self is NotFound ==> r@ == "Resource not found"@,
    {
        match self {
            AppError::DatabaseError(m) => m.clone(),
            AppError::NotFound => "Resource not found".to_owned(),
        }
    }

    /// The error rendered as one line, for logs: the storage error text
    /// behind a fixed prefix, or the fixed missing-resource message.
    pub fn message(&self) -> (r: String)
        ensures
            self matches AppError::DatabaseError(m) ==> r@ == "Database error: "@ + m@,
            self is NotFound ==> r@ == "Resource not found"@,
    {
        match self {
            AppError::DatabaseError(m) => "Database error: ".to_owned().concat(m.as_str()),
            AppError::NotFound => "Resource not found".to_owned(),
        }
    }
}

} // verus!
