//! Error taxonomy of the domain layer. Each kind maps one-to-one to an
//! HTTP status and a machine-readable code string.

use vstd::prelude::*;

verus! {

#[derive(Debug)]
pub enum DomainError {
    ValidationError(String),
    NotFound(String),
    AlreadyExists(String),
    Unauthorized(String),
    Forbidden(String),
    InternalError(String),
    DatabaseError(String),
}

impl DomainError {
    /// HTTP status that this error kind is reported with.
    pub open spec fn spec_status_code(&self) -> u16 {
        match self {
            DomainError::ValidationError(_) => 400,
            DomainError::NotFound(_) => 404,
            DomainError::AlreadyExists(_) => 409,
            DomainError::Unauthorized(_) => 401,
            DomainError::Forbidden(_) => 403,
            DomainError::InternalError(_) => 500,
            DomainError::DatabaseError(_) => 500,
        }
    }

    /// Machine-readable code string of this error kind.
    pub open spec fn spec_code(&self) -> Seq<char> {
        match self {
            DomainError::ValidationError(_) => "VALIDATION_ERROR"@,
            DomainError::NotFound(_) => "NOT_FOUND"@,
            DomainError::AlreadyExists(_) => "ALREADY_EXISTS"@,
            DomainError::Unauthorized(_) => "UNAUTHORIZED"@,
            DomainError::Forbidden(_) => "FORBIDDEN"@,
            DomainError::InternalError(_) => "INTERNAL_ERROR"@,
            DomainError::DatabaseError(_) => "DATABASE_ERROR"@,
        }
    }

    /// Human-readable message carried by the error.
    pub open spec fn spec_message(&self) -> Seq<char> {
        match self {
            DomainError::ValidationError(m) => m@,
            DomainError::NotFound(m) => m@,
            DomainError::AlreadyExists(m) => m@,
            DomainError::Unauthorized(m) => m@,
            DomainError::Forbidden(m) => m@,
            DomainError::InternalError(m) => m@,
            DomainError::DatabaseError(m) => m@,
        }
    }

    pub fn status_code(&self) -> (r: u16)
        ensures
            r == self.spec_status_code(),
    {
        match self {
            DomainError::ValidationError(_) => 400,
            DomainError::NotFound(_) => 404,
            DomainError::AlreadyExists(_) => 409,
            DomainError::Unauthorized(_) => 401,
            DomainError::Forbidden(_) => 403,
            DomainError::InternalError(_) => 500,
            DomainError::DatabaseError(_) => 500,
        }
    }

    pub fn code(&self) -> (r: &'static str)
        ensures
            r@ == self.spec_code(),
    {
        match self {
            DomainError::ValidationError(_) => "VALIDATION_ERROR",
            DomainError::NotFound(_) => "NOT_FOUND",
            DomainError::AlreadyExists(_) => "ALREADY_EXISTS",
            DomainError::Unauthorized(_) => "UNAUTHORIZED",
            DomainError::Forbidden(_) => "FORBIDDEN",
            DomainError::InternalError(_) => "INTERNAL_ERROR",
            DomainError::DatabaseError(_) => "DATABASE_ERROR",
        }
    }

    pub fn message(&self) -> (r: &str)
        ensures
            r@ == self.spec_message(),
    {
        match self {
            DomainError::ValidationError(m) => m.as_str(),
            DomainError::NotFound(m) => m.as_str(),
            DomainError::AlreadyExists(m) => m.as_str(),
            DomainError::Unauthorized(m) => m.as_str(),
            DomainError::Forbidden(m) => m.as_str(),
            DomainError::InternalError(m) => m.as_str(),
            DomainError::DatabaseError(m) => m.as_str(),
        }
    }

    /// The prefix naming the error kind in its display text.
    pub open spec fn spec_prefix(&self) -> Seq<char> {
        match self {
            DomainError::ValidationError(_) => "Validation error: "@,
            DomainError::NotFound(_) => "Not found: "@,
            DomainError::AlreadyExists(_) => "Already exists: "@,
            DomainError::Unauthorized(_) => "Unauthorized: "@,
            DomainError::Forbidden(_) => "Forbidden: "@,
            DomainError::InternalError(_) => "Internal error: "@,
            DomainError::DatabaseError(_) => "Database error: "@,
        }
    }

    /// The full display text: the kind's prefix followed by the
    /// message.
    pub fn display_string(&self) -> (r: String)
        ensures
            r@ == self.spec_prefix() + self.spec_message(),
    {
        let prefix = match self {
            DomainError::ValidationError(_) => "Validation error: ",
            DomainError::NotFound(_) => "Not found: ",
            DomainError::AlreadyExists(_) => "Already exists: ",
            DomainError::Unauthorized(_) => "Unauthorized: ",
            DomainError::Forbidden(_) => "Forbidden: ",
            DomainError::InternalError(_) => "Internal error: ",
            DomainError::DatabaseError(_) => "Database error: ",
        };
        String::from_str(prefix).concat(self.message())
    }

    /// Envelope reported to API callers for this error: never a success,
    /// the raw message, and the code string of the kind.
    pub fn to_error_response(&self) -> (r: ErrorResponse)
        ensures
            !r.success,
            r.message@ == self.spec_message(),
            r.code matches Some(c) && c@ == self.spec_code(),
    {
        ErrorResponse {
            success: false,
            message: String::from_str(self.message()),
            code: Some(String::from_str(self.code())),
        }
    }
}

/// JSON error envelope: `{ success: false, message, code }`.
#[derive(Debug)]
pub struct ErrorResponse {
    pub success: bool,
    pub message: String,
    pub code: Option<String>,
}

} // verus!
