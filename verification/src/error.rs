use vstd::prelude::*;
use crate::text::{joined, owned};

verus! {

/// What can go wrong while a request is served. Each variant carries its
/// detail as text.
#[derive(Debug, PartialEq, Eq)]
pub enum AppError {
    AuthError(String),
    DatabaseError(String),
    ValidationError(String),
    NotFound(String),
    InternalError(String),
    BadRequest(String),
    ExternalService(String),
}

/// Errors of the authentication layer are application errors.
pub type AuthError = AppError;

/// What the client is told about an error: the HTTP status, a short code and
/// a message.
#[derive(Debug)]
pub struct ErrorResponse {
    pub status: u16,
    pub error: String,
    pub message: String,
}

impl AppError {
    /// The detail that the error carries.
    pub open spec fn detail(self) -> Seq<char> {
        match self {
            AppError::AuthError(m) => m@,
            AppError::DatabaseError(m) => m@,
            AppError::ValidationError(m) => m@,
            AppError::NotFound(m) => m@,
            AppError::InternalError(m) => m@,
            AppError::BadRequest(m) => m@,
            AppError::ExternalService(m) => m@,
        }
    }

    /// The words that introduce the detail in the error's text.
    pub open spec fn prefix(self) -> Seq<char> {
        match self {
            AppError::AuthError(_) => "Authentication error: "@,
            AppError::DatabaseError(_) => "Database error: "@,
            AppError::ValidationError(_) => "Validation error: "@,
            AppError::NotFound(_) => "Not found: "@,
            AppError::InternalError(_) => "Internal server error: "@,
            AppError::BadRequest(_) => "Bad request: "@,
            AppError::ExternalService(_) => "External service error: "@,
        }
    }

    /// The HTTP status that answers the error.
    pub open spec fn status(self) -> u16 {
        match self {
            AppError::AuthError(_) => 401,
            AppError::DatabaseError(_) => 500,
            AppError::ValidationError(_) => 400,
            AppError::NotFound(_) => 404,
            AppError::InternalError(_) => 500,
            AppError::BadRequest(_) => 400,
            AppError::ExternalService(_) => 500,
        }
    }

    /// The short code of the error in a response.
    pub open spec fn code(self) -> Seq<char> {
        match self {
            AppError::AuthError(_) => "unauthorized"@,
            AppError::DatabaseError(_) => "database_error"@,
            AppError::ValidationError(_) => "validation_error"@,
            AppError::NotFound(_) => "not_found"@,
            AppError::InternalError(_) => "internal_server_error"@,
            AppError::BadRequest(_) => "bad_request"@,
            AppError::ExternalService(_) => "external_service_error"@,
        }
    }

    /// The message of the error in a response: the detail, and for a
    /// database error the whole text of the error.
    pub open spec fn response_message(self) -> Seq<char> {
        match self {
            AppError::DatabaseError(_) => self.prefix() + self.detail(),
            _ => self.detail(),
        }
    }

    /// The text of the error: what kind it is, then its detail.
    pub fn to_string(&self) -> (r: String)
        ensures
            r@ == self.prefix() + self.detail(),
    {
        match self {
            AppError::AuthError(m) => joined("Authentication error: ", m.as_str()),
            AppError::DatabaseError(m) => joined("Database error: ", m.as_str()),
            AppError::ValidationError(m) => joined("Validation error: ", m.as_str()),
            AppError::NotFound(m) => joined("Not found: ", m.as_str()),
            AppError::InternalError(m) => joined("Internal server error: ", m.as_str()),
            AppError::BadRequest(m) => joined("Bad request: ", m.as_str()),
            AppError::ExternalService(m) => joined("External service error: ", m.as_str()),
        }
    }

    pub fn status_code(&self) -> (r: u16)
        ensures
            r == self.status(),
    {
        match self {
            AppError::AuthError(_) => 401,
            AppError::DatabaseError(_) => 500,
            AppError::ValidationError(_) => 400,
            AppError::NotFound(_) => 404,
            AppError::InternalError(_) => 500,
            AppError::BadRequest(_) => 400,
            AppError::ExternalService(_) => 500,
        }
    }

    /// What the client is told about the error.
    pub fn error_response(&self) -> (r: ErrorResponse)
        ensures
            r.status == self.status(),
            r.error@ == self.code(),
            r.message@ == self.response_message(),
    {
        match self {
            AppError::AuthError(m) => ErrorResponse {
                status: 401,
                error: owned("unauthorized"),
                message: m.clone(),
            },
            AppError::DatabaseError(_) => ErrorResponse {
                status: 500,
                error: owned("database_error"),
                message: self.to_string(),
            },
            AppError::ValidationError(m) => ErrorResponse {
                status: 400,
                error: owned("validation_error"),
                message: m.clone(),
            },
            AppError::NotFound(m) => ErrorResponse {
                status: 404,
                error: owned("not_found"),
                message: m.clone(),
            },
            AppError::InternalError(m) => ErrorResponse {
                status: 500,
                error: owned("internal_server_error"),
                message: m.clone(),
            },
            AppError::BadRequest(m) => ErrorResponse {
                status: 400,
                error: owned("bad_request"),
                message: m.clone(),
            },
            AppError::ExternalService(m) => ErrorResponse {
                status: 500,
                error: owned("external_service_error"),
                message: m.clone(),
            },
        }
    }
}

} // verus!
