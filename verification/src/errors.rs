use vstd::prelude::*;
use crate::validate::ValidationErrors;

verus! {

/// The error kinds that a request handler surfaces to the transport layer,
/// together with the status code and body each one maps to.
#[derive(Debug)]
pub enum AppError {
    InternalServerError,
    BadRequest(String),
    NotFound,
}

impl AppError {
    /// The HTTP status code for this error kind.
    pub fn status_code(&self) -> (code: u16)
        ensures
            code == (match self {
                AppError::InternalServerError => 500u16,
                AppError::BadRequest(_) => 400u16,
                AppError::NotFound => 404u16,
            }),
    {
        match self {
            AppError::InternalServerError => 500,
            AppError::BadRequest(_) => 400,
            AppError::NotFound => 404,
        }
    }

    /// The human-readable description of this error kind.
    pub fn message(&self) -> (r: String)
        ensures
            self is InternalServerError ==> r@ == "Internal Server Error"@,
            self matches AppError::BadRequest(m) ==> r@ == "Bad Request: "@ + m@,
            self is NotFound ==> r@ == "Not Found"@,
    {
        match self {
            AppError::InternalServerError => String::from_str("Internal Server Error"),
            AppError::BadRequest(m) => String::from_str("Bad Request: ").concat(m.as_str()),
            AppError::NotFound => String::from_str("Not Found"),
        }
    }
}

/// Everything that can go wrong while handling a single request against the
/// user store. Each variant records why the request failed; `to_app_error`
/// and `status_code` give the single mapping to the transport layer.
#[derive(Debug)]
pub enum RequestError {
    /// The request body violates the field constraints.
    Validation(ValidationErrors),
    /// The path identifier is not 24 hexadecimal characters.
    InvalidId,
    /// No document carries the requested identifier.
    NotFound,
    /// The store cannot persist another document.
    Storage,
}

impl RequestError {
    /// The HTTP status code for this error kind: validation failures and
    /// malformed identifiers are the caller's fault, a missing document is
    /// not found, and a persistence failure is the server's own.
    pub fn status_code(&self) -> (code: u16)
        ensures
            code == (match self {
                RequestError::Validation(_) => 400u16,
                RequestError::InvalidId => 400u16,
                RequestError::NotFound => 404u16,
                RequestError::Storage => 500u16,
            }),
    {
        match self {
            RequestError::Validation(_) => 400,
            RequestError::InvalidId => 400,
            RequestError::NotFound => 404,
            RequestError::Storage => 500,
        }
    }

    /// The single mapping from a request failure to the transport error
    /// kind that carries it to the caller.
    pub fn to_app_error(self) -> (e: AppError)
        ensures
            self matches RequestError::Validation(v) ==> (e matches AppError::BadRequest(m)
                && m@ == v.spec_summary()),
            self is InvalidId ==> (e matches AppError::BadRequest(m) && m@ == "Invalid ID format"@),
            self is NotFound ==> e is NotFound,
            self is Storage ==> e is InternalServerError,
    {
        match self {
            RequestError::Validation(v) => AppError::BadRequest(v.summary()),
            RequestError::InvalidId => AppError::BadRequest(String::from_str("Invalid ID format")),
            RequestError::NotFound => AppError::NotFound,
            RequestError::Storage => AppError::InternalServerError,
        }
    }
}

} // verus!
