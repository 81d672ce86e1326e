//! The failures of each layer and the outcome classes they surface as.
//!
//! The authenticator and the store report small typed failures. Handlers turn
//! them into a `ServiceError`: a stable kind with a message for the caller.
//! Every message is one of the fixed texts below, so nothing internal can
//! leak into a response.

use crate::models::ValidationError;
use vstd::prelude::*;
use vstd::string::StringExecFns;

verus! {

/// Why a caller could not be identified.
#[derive(Clone, Copy, Debug, PartialEq, Eq, Structural)]
pub enum AuthError {
    /// The request carried no `Authorization` header.
    MissingHeader,
    /// The header's value is not readable text.
    UnreadableHeader,
    /// The header does not have the shape `Bearer <token>`.
    MalformedHeader,
    /// The token's signature, expiry or claims were not accepted.
    InvalidToken,
    /// The token's subject is not a user identifier.
    InvalidSubject,
}

/// Why the store turned an operation down.
#[derive(Clone, Copy, Debug, PartialEq, Eq, Structural)]
pub enum StoreError {
    /// No entry has this identifier and this owner.
    NotFound,
    /// The entry has ended before.
    AlreadyStopped,
    /// The end would lie before the start.
    InvalidRange,
    /// The owner has an entry that is still running.
    ActiveEntryExists,
    /// The identifier is taken.
    DuplicateId,
    /// The request body broke a validation rule.
    Invalid(ValidationError),
    /// The store or the clock could not be used.
    Unavailable,
}

/// The outcome classes a failed request can surface as.
#[derive(Clone, Copy, Debug, PartialEq, Eq, Structural)]
pub enum ErrorKind {
    Internal,
    BadRequest,
    Unauthorized,
    NotFound,
    Conflict,
}

/// A failed request as the caller sees it.
#[derive(Debug, PartialEq, Eq)]
pub enum ServiceError {
    InternalServerError,
    BadRequest(String),
    Unauthorized(String),
    NotFound(String),
    Conflict(String),
}

/// What a `ServiceError` stands for: its kind and the characters of its
/// message.
pub struct ServiceErrorView {
    pub kind: ErrorKind,
    pub message: Seq<char>,
}

/// The response to a failed request: a status code and the message as body.
#[derive(Debug, PartialEq, Eq)]
pub struct ErrorResponse {
    pub status: u16,
    pub body: String,
}

/// The message for an authentication failure.
pub open spec fn auth_message(error: AuthError) -> Seq<char> {
    match error {
        AuthError::MissingHeader => "Authorization header is missing"@,
        AuthError::UnreadableHeader => "Invalid Authorization header"@,
        AuthError::MalformedHeader => "Invalid token format"@,
        AuthError::InvalidToken => "Invalid token"@,
        AuthError::InvalidSubject => "Invalid user ID in token"@,
    }
}

/// The message for a validation failure.
pub open spec fn validation_message(error: ValidationError) -> Seq<char> {
    match error {
        ValidationError::MissingTaskId => "task_id is required"@,
        ValidationError::DescriptionTooLong => "description must be at most 500 characters"@,
    }
}

/// The outcome class of a store failure: a missing or foreign entry is not
/// found, a second stop or a second running entry is a conflict, a bad range
/// or body is a bad request, and anything else is internal.
pub open spec fn store_error_kind(error: StoreError) -> ErrorKind {
    match error {
        StoreError::NotFound => ErrorKind::NotFound,
        StoreError::AlreadyStopped => ErrorKind::Conflict,
        StoreError::ActiveEntryExists => ErrorKind::Conflict,
        StoreError::InvalidRange => ErrorKind::BadRequest,
        StoreError::Invalid(_) => ErrorKind::BadRequest,
        StoreError::DuplicateId => ErrorKind::Internal,
        StoreError::Unavailable => ErrorKind::Internal,
    }
}

/// The message for a store failure.
pub open spec fn store_message(error: StoreError) -> Seq<char> {
    match error {
        StoreError::NotFound => "Record not found"@,
        StoreError::AlreadyStopped => "Time entry is already stopped"@,
        StoreError::ActiveEntryExists => "An active time entry already exists"@,
        StoreError::InvalidRange => "end_time must not be before start_time"@,
        StoreError::Invalid(rule) => validation_message(rule),
        StoreError::DuplicateId => "Internal Server Error"@,
        StoreError::Unavailable => "Internal Server Error"@,
    }
}

/// The status code of each outcome class.
pub open spec fn status_of(kind: ErrorKind) -> u16 {
    match kind {
        ErrorKind::Internal => 500,
        ErrorKind::BadRequest => 400,
        ErrorKind::Unauthorized => 401,
        ErrorKind::NotFound => 404,
        ErrorKind::Conflict => 409,
    }
}

/// The label that precedes the message when an error is written out.
pub open spec fn kind_label(kind: ErrorKind) -> Seq<char> {
    match kind {
        ErrorKind::Internal => "Internal Server Error"@,
        ErrorKind::BadRequest => "BadRequest: "@,
        ErrorKind::Unauthorized => "Unauthorized: "@,
        ErrorKind::NotFound => "NotFound: "@,
        ErrorKind::Conflict => "Conflict: "@,
    }
}

impl View for ServiceError {
    type V = ServiceErrorView;

    open spec fn view(&self) -> ServiceErrorView {
        match *self {
            ServiceError::InternalServerError => ServiceErrorView {
                kind: ErrorKind::Internal,
                message: "Internal Server Error"@,
            },
            ServiceError::BadRequest(text) => ServiceErrorView {
                kind: ErrorKind::BadRequest,
                message: text@,
            },
            ServiceError::Unauthorized(text) => ServiceErrorView {
                kind: ErrorKind::Unauthorized,
                message: text@,
            },
            ServiceError::NotFound(text) => ServiceErrorView {
                kind: ErrorKind::NotFound,
                message: text@,
            },
            ServiceError::Conflict(text) => ServiceErrorView {
                kind: ErrorKind::Conflict,
                message: text@,
            },
        }
    }
}

/// What an authentication failure surfaces as: always `Unauthorized`.
pub open spec fn auth_failure(error: AuthError) -> ServiceErrorView {
    ServiceErrorView { kind: ErrorKind::Unauthorized, message: auth_message(error) }
}

/// What a validation failure surfaces as: always `BadRequest`.
pub open spec fn validation_failure(error: ValidationError) -> ServiceErrorView {
    ServiceErrorView { kind: ErrorKind::BadRequest, message: validation_message(error) }
}

/// What a store failure surfaces as.
pub open spec fn store_failure(error: StoreError) -> ServiceErrorView {
    ServiceErrorView { kind: store_error_kind(error), message: store_message(error) }
}

/// The message text for an authentication failure.
fn auth_text(error: AuthError) -> (text: String)
    ensures
        text@ == auth_message(error),
{
    match error {
        AuthError::MissingHeader => String::from_str("Authorization header is missing"),
        AuthError::UnreadableHeader => String::from_str("Invalid Authorization header"),
        AuthError::MalformedHeader => String::from_str("Invalid token format"),
        AuthError::InvalidToken => String::from_str("Invalid token"),
        AuthError::InvalidSubject => String::from_str("Invalid user ID in token"),
    }
}

/// The message text for a validation failure.
fn validation_text(error: ValidationError) -> (text: String)
    ensures
        text@ == validation_message(error),
{
    match error {
        ValidationError::MissingTaskId => String::from_str("task_id is required"),
        ValidationError::DescriptionTooLong => String::from_str(
            "description must be at most 500 characters",
        ),
    }
}

impl ServiceError {
    /// The outcome class.
    pub fn kind(&self) -> (kind: ErrorKind)
        ensures
            kind == self@.kind,
    {
        match self {
            ServiceError::InternalServerError => ErrorKind::Internal,
            ServiceError::BadRequest(_) => ErrorKind::BadRequest,
            ServiceError::Unauthorized(_) => ErrorKind::Unauthorized,
            ServiceError::NotFound(_) => ErrorKind::NotFound,
            ServiceError::Conflict(_) => ErrorKind::Conflict,
        }
    }

    /// The message for the caller.
    pub fn message(&self) -> (text: String)
        ensures
            text@ == self@.message,
    {
        match self {
            ServiceError::InternalServerError => String::from_str("Internal Server Error"),
            ServiceError::BadRequest(text) => text.clone(),
            ServiceError::Unauthorized(text) => text.clone(),
            ServiceError::NotFound(text) => text.clone(),
            ServiceError::Conflict(text) => text.clone(),
        }
    }

    /// The status code of the response.
    pub fn status_code(&self) -> (status: u16)
        ensures
            status == status_of(self@.kind),
    {
        match self {
            ServiceError::InternalServerError => 500,
            ServiceError::BadRequest(_) => 400,
            ServiceError::Unauthorized(_) => 401,
            ServiceError::NotFound(_) => 404,
            ServiceError::Conflict(_) => 409,
        }
    }

    /// The response for this failure: the status of its kind, and its message
    /// as the body.
    pub fn error_response(&self) -> (response: ErrorResponse)
        ensures
            response.status == status_of(self@.kind),
            response.body@ == self@.message,
    {
        ErrorResponse { status: self.status_code(), body: self.message() }
    }

    /// The error written out: the kind's label, then the message. An internal
    /// error is written as its fixed text alone.
    pub fn to_text(&self) -> (text: String)
        ensures
            text@ == if self@.kind == ErrorKind::Internal {
                kind_label(ErrorKind::Internal)
            } else {
                kind_label(self@.kind) + self@.message
            },
    {
        match self {
            ServiceError::InternalServerError => String::from_str("Internal Server Error"),
            ServiceError::BadRequest(text) => String::from_str("BadRequest: ").concat(
                text.as_str(),
            ),
            ServiceError::Unauthorized(text) => String::from_str("Unauthorized: ").concat(
                text.as_str(),
            ),
            ServiceError::NotFound(text) => String::from_str("NotFound: ").concat(text.as_str()),
            ServiceError::Conflict(text) => String::from_str("Conflict: ").concat(text.as_str()),
        }
    }

    /// Surfaces an authentication failure.
    pub fn from_auth(error: AuthError) -> (surfaced: ServiceError)
        ensures
            surfaced@ == auth_failure(error),
    {
        ServiceError::Unauthorized(auth_text(error))
    }

    /// Surfaces a validation failure.
    pub fn from_validation(error: ValidationError) -> (surfaced: ServiceError)
        ensures
            surfaced@ == validation_failure(error),
    {
        ServiceError::BadRequest(validation_text(error))
    }

    /// Surfaces a store failure.
    pub fn from_store(error: StoreError) -> (surfaced: ServiceError)
        ensures
            surfaced@ == store_failure(error),
    {
        match error {
            StoreError::NotFound => ServiceError::NotFound(String::from_str("Record not found")),
            StoreError::AlreadyStopped => ServiceError::Conflict(
                String::from_str("Time entry is already stopped"),
            ),
            StoreError::ActiveEntryExists => ServiceError::Conflict(
                String::from_str("An active time entry already exists"),
            ),
            StoreError::InvalidRange => ServiceError::BadRequest(
                String::from_str("end_time must not be before start_time"),
            ),
            StoreError::Invalid(rule) => ServiceError::BadRequest(validation_text(rule)),
            StoreError::DuplicateId => ServiceError::InternalServerError,
            StoreError::Unavailable => ServiceError::InternalServerError,
        }
    }
}

} // verus!
