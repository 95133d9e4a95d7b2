//! Errors of the service and of uploaded-file processing, with the text they
//! display and the HTTP response each one is answered with.

use vstd::prelude::*;
use crate::text::join_text;

verus! {

/// Errors while processing a row of an uploaded file.
#[derive(Debug, Clone, PartialEq, Eq)]
pub enum FileProcessingError {
    EmailNotFoundError,
    ParseError(String),
    InsertError(String),
}

/// Errors a request can end in.
#[derive(Debug, Clone, PartialEq, Eq)]
pub enum ServiceError {
    InternalServerError,
    NotFoundError,
    BadRequest(String),
    JWKSFetchError,
    AWSSdkError(String),
    DieselError(String),
    EnvVarError(String),
    ForbiddenError,
}

/// The text a file-processing error displays.
pub open spec fn file_error_text(e: FileProcessingError) -> Seq<char> {
    match e {
        FileProcessingError::EmailNotFoundError => "Email not found error"@,
        FileProcessingError::ParseError(m) => "Parsing error: "@ + m@,
        FileProcessingError::InsertError(m) => "Error saving to db: "@ + m@,
    }
}

/// The text a service error displays.
pub open spec fn service_error_text(e: ServiceError) -> Seq<char> {
    match e {
        ServiceError::InternalServerError => "Internal Server Error"@,
        ServiceError::NotFoundError => "Not found error"@,
        ServiceError::BadRequest(m) => "BadRequest: "@ + m@,
        ServiceError::JWKSFetchError => "JWKSFetchError"@,
        ServiceError::AWSSdkError(_) => "AWS SDK Error"@,
        ServiceError::DieselError(_) => "Database error"@,
        ServiceError::EnvVarError(_) => "Env var error"@,
        ServiceError::ForbiddenError => "Forbidden error"@,
    }
}

/// The HTTP status a service error is answered with.
pub open spec fn service_error_status(e: ServiceError) -> u16 {
    match e {
        ServiceError::BadRequest(_) => 400,
        ServiceError::ForbiddenError => 403,
        ServiceError::NotFoundError => 404,
        _ => 500,
    }
}

/// The JSON string body a service error is answered with; `None` for an empty body.
pub open spec fn service_error_body(e: ServiceError) -> Option<Seq<char>> {
    match e {
        ServiceError::InternalServerError => Some("Internal Server Error, Please try later"@),
        ServiceError::BadRequest(m) => Some(m@),
        ServiceError::JWKSFetchError => Some("Could not fetch JWKS"@),
        ServiceError::AWSSdkError(m) => Some(m@),
        ServiceError::DieselError(m) => Some(m@),
        ServiceError::EnvVarError(m) => Some(m@),
        ServiceError::NotFoundError => None,
        ServiceError::ForbiddenError => None,
    }
}

impl FileProcessingError {
    /// The text the error displays.
    pub fn message(&self) -> (s: String)
        ensures
            s@ == file_error_text(*self),
    {
        match self {
            FileProcessingError::EmailNotFoundError => "Email not found error".to_owned(),
            FileProcessingError::ParseError(m) => join_text("Parsing error: ", m.as_str()),
            FileProcessingError::InsertError(m) => join_text("Error saving to db: ", m.as_str()),
        }
    }
}

/// The response to a service error: its status and its JSON string body, if any.
pub struct ErrorResponse {
    pub status: u16,
    pub body: Option<String>,
}

impl ServiceError {
    /// The text the error displays.
    pub fn message(&self) -> (s: String)
        ensures
            s@ == service_error_text(*self),
    {
        match self {
            ServiceError::InternalServerError => "Internal Server Error".to_owned(),
            ServiceError::NotFoundError => "Not found error".to_owned(),
            ServiceError::BadRequest(m) => join_text("BadRequest: ", m.as_str()),
            ServiceError::JWKSFetchError => "JWKSFetchError".to_owned(),
            ServiceError::AWSSdkError(_) => "AWS SDK Error".to_owned(),
            ServiceError::DieselError(_) => "Database error".to_owned(),
            ServiceError::EnvVarError(_) => "Env var error".to_owned(),
            ServiceError::ForbiddenError => "Forbidden error".to_owned(),
        }
    }

    /// The response the error is answered with: 400 for a bad request (with its
    /// message), 403 and 404 with an empty body, and 500 otherwise.
    pub fn error_response(&self) -> (r: ErrorResponse)
        ensures
            r.status == service_error_status(*self),
            r.body is Some <==> service_error_body(*self) is Some,
            r.body matches Some(b) ==> service_error_body(*self) == Some(b@),
            r.status == 400 || r.status == 403 || r.status == 404 || r.status == 500,
    {
        match self {
            ServiceError::InternalServerError => ErrorResponse {
                status: 500,
                body: Some("Internal Server Error, Please try later".to_owned()),
            },
            ServiceError::BadRequest(m) => ErrorResponse { status: 400, body: Some(m.clone()) },
            ServiceError::JWKSFetchError => ErrorResponse {
                status: 500,
                body: Some("Could not fetch JWKS".to_owned()),
            },
            ServiceError::AWSSdkError(m) => ErrorResponse { status: 500, body: Some(m.clone()) },
            ServiceError::DieselError(m) => ErrorResponse { status: 500, body: Some(m.clone()) },
            ServiceError::EnvVarError(m) => ErrorResponse { status: 500, body: Some(m.clone()) },
            ServiceError::NotFoundError => ErrorResponse { status: 404, body: None },
            ServiceError::ForbiddenError => ErrorResponse { status: 403, body: None },
        }
    }
}

/// The response to a failed bearer authentication: 500 with "Could not fetch JWKS".
pub fn auth_error_response() -> (r: ErrorResponse)
    ensures
        r.status == 500,
        r.body matches Some(b) && b@ == "Could not fetch JWKS"@,
{
    ErrorResponse { status: 500, body: Some("Could not fetch JWKS".to_owned()) }
}

} // verus!
