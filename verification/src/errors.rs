//! Error values returned to HTTP clients, and the file-layer errors that map
//! onto them.

use vstd::prelude::*;

verus! {

/// An API error: the HTTP layer turns each variant into a status code, a stable
/// machine-readable code and a message.
#[derive(Debug, Clone, PartialEq, Eq)]
pub enum ApiError {
    BadRequest(String),
    Unauthorized(String),
    Forbidden(String),
    NotFound(String),
    Conflict(String),
    Internal(String),
    /// A path that resolves outside the caller's sandbox. `field` names the
    /// request field that carried it; `operation` the attempted operation.
    PathOutsideSandbox { message: String, field: Option<String>, operation: Option<String> },
}

/// Structured details attached to an error (which field, which operation).
#[derive(Debug, Clone, PartialEq, Eq)]
pub struct ErrorDetails {
    pub field: Option<String>,
    pub operation: Option<String>,
}

/// The stable code of each error kind.
pub open spec fn error_code_spec(e: ApiError) -> Seq<char> {
    match e {
        ApiError::BadRequest(_) => "BAD_REQUEST"@,
        ApiError::Unauthorized(_) => "UNAUTHORIZED"@,
        ApiError::Forbidden(_) => "FORBIDDEN"@,
        ApiError::NotFound(_) => "NOT_FOUND"@,
        ApiError::Conflict(_) => "CONFLICT"@,
        ApiError::Internal(_) => "INTERNAL_ERROR"@,
        ApiError::PathOutsideSandbox { .. } => "PATH_OUTSIDE_SANDBOX"@,
    }
}

impl ApiError {
    /// The stable machine-readable code of this error.
    pub fn error_code(&self) -> (r: &'static str)
        ensures
            r@ == error_code_spec(*self),
    {
        match self {
            ApiError::BadRequest(_) => "BAD_REQUEST",
            ApiError::Unauthorized(_) => "UNAUTHORIZED",
            ApiError::Forbidden(_) => "FORBIDDEN",
            ApiError::NotFound(_) => "NOT_FOUND",
            ApiError::Conflict(_) => "CONFLICT",
            ApiError::Internal(_) => "INTERNAL_ERROR",
            ApiError::PathOutsideSandbox { .. } => "PATH_OUTSIDE_SANDBOX",
        }
    }

    /// The structured details of this error: only a sandbox violation has any.
    pub fn error_details(&self) -> (r: Option<ErrorDetails>)
        ensures
            match *self {
                ApiError::PathOutsideSandbox { field, operation, .. } => r == Some(
                    ErrorDetails { field, operation },
                ),
                _ => r is None,
            },
    {
        match self {
            ApiError::PathOutsideSandbox { field, operation, .. } => Some(
                ErrorDetails { field: field.clone(), operation: operation.clone() },
            ),
            _ => None,
        }
    }
}

/// Errors of the file layer.
#[derive(Debug, Clone, PartialEq, Eq)]
pub enum FileError {
    BadRequest(String),
    Forbidden(String),
    PathOutsideSandbox { message: String, field: Option<String>, operation: Option<String> },
    NotFound(String),
    Internal(String),
}

/// The API error a file error maps to: same kind, same payload.
pub open spec fn file_error_to_api(e: FileError) -> ApiError {
    match e {
        FileError::BadRequest(m) => ApiError::BadRequest(m),
        FileError::Forbidden(m) => ApiError::Forbidden(m),
        FileError::PathOutsideSandbox { message, field, operation } => ApiError::PathOutsideSandbox {
            message,
            field,
            operation,
        },
        FileError::NotFound(m) => ApiError::NotFound(m),
        FileError::Internal(m) => ApiError::Internal(m),
    }
}

impl ApiError {
    /// Maps a file-layer error onto the API error of the same kind.
    pub fn from_file_error(error: FileError) -> (r: ApiError)
        ensures
            r == file_error_to_api(error),
    {
        match error {
            FileError::BadRequest(message) => ApiError::BadRequest(message),
            FileError::Forbidden(message) => ApiError::Forbidden(message),
            FileError::PathOutsideSandbox { message, field, operation } => ApiError::PathOutsideSandbox {
                message,
                field,
                operation,
            },
            FileError::NotFound(message) => ApiError::NotFound(message),
            FileError::Internal(message) => ApiError::Internal(message),
        }
    }
}

} // verus!
