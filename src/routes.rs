//! What the farm endpoints answer with: request form and error mapping.

use vstd::prelude::*;
use crate::coordinator::IdempotencyError;
use crate::key::KeyError;

verus! {

/// The body of a request that creates a farm.
#[derive(Debug, Clone)]
pub struct FormData {
    pub name: String,
    pub address: String,
    pub canton: String,
    pub coordinates: String,
    pub categories: Vec<String>,
    pub idempotency_key: String,
}

/// Why creating a farm failed.
#[derive(Debug, Clone)]
pub enum FarmError {
    /// A field of the request is malformed; holds the reason.
    ValidationError(String),
    /// Something on the server's side failed; holds what.
    UnexpectedError(String),
    /// An earlier request with the same idempotency key is still in flight.
    DuplicateRequestConflict(IdempotencyError),
}

/// The sentence that explains a refused key.
pub open spec fn key_message(k: KeyError) -> Seq<char> {
    match k {
        KeyError::Empty => "The idempotency key cannot be empty or whitespace"@,
        KeyError::TooLong(_) => "The idempotency key must be shorter than 80 bytes"@,
    }
}

/// The sentence that explains a coordinator error.
pub open spec fn error_message(e: IdempotencyError) -> Seq<char> {
    match e {
        IdempotencyError::KeyValidation(_) => "Failed to validate Idempotency Key"@,
        IdempotencyError::ExpectedResponseNotFound => "We expected a saved response, we didn't find it"@,
        IdempotencyError::Decoding => "Failed to decode Idempotency payload"@,
        IdempotencyError::Encoding => "Failed to encode Idempotency payload"@,
        IdempotencyError::UnsupportedEngine => "The configured Idempotency engine is not supported"@,
        IdempotencyError::StoreConnectivity => "Failed to reach the Idempotency store"@,
    }
}

impl KeyError {
    /// A sentence for the client.
    pub fn message(&self) -> (r: &'static str)
        ensures
            r@ == key_message(*self),
    {
        match self {
            KeyError::Empty => "The idempotency key cannot be empty or whitespace",
            KeyError::TooLong(_) => "The idempotency key must be shorter than 80 bytes",
        }
    }
}

impl IdempotencyError {
    /// A sentence for the logs.
    pub fn message(&self) -> (r: &'static str)
        ensures
            r@ == error_message(*self),
    {
        match self {
            IdempotencyError::KeyValidation(_) => "Failed to validate Idempotency Key",
            IdempotencyError::ExpectedResponseNotFound => "We expected a saved response, we didn't find it",
            IdempotencyError::Decoding => "Failed to decode Idempotency payload",
            IdempotencyError::Encoding => "Failed to encode Idempotency payload",
            IdempotencyError::UnsupportedEngine => "The configured Idempotency engine is not supported",
            IdempotencyError::StoreConnectivity => "Failed to reach the Idempotency store",
        }
    }
}

impl FarmError {
    /// Maps a coordinator error: a malformed key is a validation error, a
    /// key held by an attempt still in flight is a conflict, and anything
    /// else is unexpected.
    pub fn from_idempotency(e: IdempotencyError) -> (r: FarmError)
        ensures
            e matches IdempotencyError::KeyValidation(k) ==> (r matches FarmError::ValidationError(
                m,
            ) && m@ == key_message(k)),
            e == IdempotencyError::ExpectedResponseNotFound ==> (r matches FarmError::DuplicateRequestConflict(
                x,
            ) && x == e),
            !(e is KeyValidation) && e != IdempotencyError::ExpectedResponseNotFound ==> (r matches FarmError::UnexpectedError(
                m,
            ) && m@ == error_message(e)),
    {
        match e {
            IdempotencyError::KeyValidation(k) => FarmError::ValidationError(k.message().to_owned()),
            IdempotencyError::ExpectedResponseNotFound => FarmError::DuplicateRequestConflict(e),
            _ => FarmError::UnexpectedError(e.message().to_owned()),
        }
    }

    /// The HTTP status of the answer: 400, 500 or 409.
    pub fn status_code(&self) -> (r: u16)
        ensures
            self is ValidationError ==> r == 400,
            self is UnexpectedError ==> r == 500,
            self is DuplicateRequestConflict ==> r == 409,
    {
        match self {
            FarmError::ValidationError(_) => 400,
            FarmError::UnexpectedError(_) => 500,
            FarmError::DuplicateRequestConflict(_) => 409,
        }
    }
}

} // verus!
