//! The error taxonomy of the service and how store failures fall into it.

use vstd::prelude::*;

verus! {

/// HTTP status of a successful read.
pub const STATUS_OK: u16 = 200;

/// HTTP status of a successful create.
pub const STATUS_CREATED: u16 = 201;

/// HTTP status of a successful delete.
pub const STATUS_NO_CONTENT: u16 = 204;

/// HTTP status of a request with missing or malformed input.
pub const STATUS_BAD_REQUEST: u16 = 400;

/// HTTP status of a request for something that does not exist.
pub const STATUS_NOT_FOUND: u16 = 404;

/// HTTP status of a request that would break a uniqueness rule.
pub const STATUS_CONFLICT: u16 = 409;

/// HTTP status of a failure that is not the caller's doing.
pub const STATUS_INTERNAL_SERVER_ERROR: u16 = 500;

/// SQLite's extended result code for a failed foreign-key constraint.
pub const SQLITE_CONSTRAINT_FOREIGNKEY: i32 = 787;

/// SQLite's extended result code for a failed primary-key constraint.
pub const SQLITE_CONSTRAINT_PRIMARYKEY: i32 = 1555;

/// SQLite's extended result code for a failed uniqueness constraint.
pub const SQLITE_CONSTRAINT_UNIQUE: i32 = 2067;

/// Why a request was not served.
#[derive(Debug, Clone, Copy, PartialEq, Eq, Structural)]
pub enum ApiError {
    /// Input was missing or malformed.
    Validation,
    /// A referenced entity is absent.
    NotFound,
    /// A uniqueness rule or invariant would be violated.
    Conflict,
    /// The store failed in a way that is none of the above.
    Store,
}

/// Why the store did not carry out a statement.
#[derive(Debug, Clone, Copy, PartialEq, Eq, Structural)]
pub enum Failure {
    /// SQLite refused or failed, with this extended result code.
    Sqlite { extended_code: i32 },
    /// Anything else went wrong on the way to or from the store.
    Other,
}

impl ApiError {
    /// The HTTP status that reports this error.
    pub open spec fn status_of(self) -> u16 {
        match self {
            ApiError::Validation => STATUS_BAD_REQUEST,
            ApiError::NotFound => STATUS_NOT_FOUND,
            ApiError::Conflict => STATUS_CONFLICT,
            ApiError::Store => STATUS_INTERNAL_SERVER_ERROR,
        }
    }

    /// The text that reports this error; it never carries store internals.
    pub open spec fn message_of(self) -> Seq<char> {
        match self {
            ApiError::Validation => "invalid request"@,
            ApiError::NotFound => "not found"@,
            ApiError::Conflict => "conflict"@,
            ApiError::Store => "internal server error"@,
        }
    }

    /// The HTTP status that reports this error.
    pub fn status(&self) -> (code: u16)
        ensures
            code == self.status_of(),
            400 <= code <= 500,
    {
        match self {
            ApiError::Validation => STATUS_BAD_REQUEST,
            ApiError::NotFound => STATUS_NOT_FOUND,
            ApiError::Conflict => STATUS_CONFLICT,
            ApiError::Store => STATUS_INTERNAL_SERVER_ERROR,
        }
    }

    /// The text that reports this error.
    pub fn message(&self) -> (text: &'static str)
        ensures
            text@ == self.message_of(),
    {
        match self {
            ApiError::Validation => "invalid request",
            ApiError::NotFound => "not found",
            ApiError::Conflict => "conflict",
            ApiError::Store => "internal server error",
        }
    }
}

/// The taxonomy member that a store failure belongs to: a broken uniqueness or
/// primary-key rule is a conflict, a broken foreign key is a missing referent,
/// and everything else is the store's own failure.
pub open spec fn classify_spec(failure: Failure) -> ApiError {
    match failure {
        Failure::Sqlite { extended_code } => if extended_code == SQLITE_CONSTRAINT_UNIQUE
            || extended_code == SQLITE_CONSTRAINT_PRIMARYKEY {
            ApiError::Conflict
        } else if extended_code == SQLITE_CONSTRAINT_FOREIGNKEY {
            ApiError::NotFound
        } else {
            ApiError::Store
        },
        Failure::Other => ApiError::Store,
    }
}

/// Sorts a store failure into the taxonomy.
pub fn classify(failure: Failure) -> (error: ApiError)
    ensures
        error == classify_spec(failure),
{
    match failure {
        Failure::Sqlite { extended_code } => {
            if extended_code == SQLITE_CONSTRAINT_UNIQUE || extended_code
                == SQLITE_CONSTRAINT_PRIMARYKEY {
                ApiError::Conflict
            } else if extended_code == SQLITE_CONSTRAINT_FOREIGNKEY {
                ApiError::NotFound
            } else {
                ApiError::Store
            }
        },
        Failure::Other => ApiError::Store,
    }
}

/// A store failure is never blamed on the request's shape.
pub proof fn lemma_classify_never_validation(failure: Failure)
    ensures
        classify_spec(failure) != ApiError::Validation,
{
}

} // verus!
