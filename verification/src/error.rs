//! The closed set of domain errors that API responses are translated into.

use vstd::prelude::*;

verus! {

/// A domain error, derived from an HTTP status code and the endpoint that was
/// called. Each variant carries a fixed human-readable message, returned by
/// [`ErrorKind::message`].
#[derive(Clone, Copy, Debug, PartialEq, Eq, Structural)]
pub enum ErrorKind {
    UnknownServerError,
    InternalError,
    InvalidHostname,
    InvalidPort,
    PortConflict,
    InvalidDataLimit,
    AccessKeyInexistent,
    InvalidName,
    InvalidRequest,
    UnknownError,
}

/// The fixed message attached to each error kind.
pub open spec fn spec_error_message(e: ErrorKind) -> Seq<char> {
    match e {
        ErrorKind::UnknownServerError => "An unknown server error occurred."@,
        ErrorKind::InternalError => "An internal error occurred."@,
        ErrorKind::InvalidHostname => "An invalid hostname or IP address was provided."@,
        ErrorKind::InvalidPort => "The requested port wasn't an integer from 1 through 65535, or the request had no port parameter."@,
        ErrorKind::PortConflict => "The requested port was already in use by another service."@,
        ErrorKind::InvalidDataLimit => "Invalid data limit."@,
        ErrorKind::AccessKeyInexistent => "Access key inexistent."@,
        ErrorKind::InvalidName => "Invalid name."@,
        ErrorKind::InvalidRequest => "Invalid request."@,
        ErrorKind::UnknownError => "An unknown error occurred."@,
    }
}

impl ErrorKind {
    /// The fixed human-readable message for this error kind.
    pub fn message(&self) -> (r: &'static str)
        ensures
            r@ == spec_error_message(*self),
    {
        match self {
            ErrorKind::UnknownServerError => "An unknown server error occurred.",
            ErrorKind::InternalError => "An internal error occurred.",
            ErrorKind::InvalidHostname => "An invalid hostname or IP address was provided.",
            ErrorKind::InvalidPort => "The requested port wasn't an integer from 1 through 65535, or the request had no port parameter.",
            ErrorKind::PortConflict => "The requested port was already in use by another service.",
            ErrorKind::InvalidDataLimit => "Invalid data limit.",
            ErrorKind::AccessKeyInexistent => "Access key inexistent.",
            ErrorKind::InvalidName => "Invalid name.",
            ErrorKind::InvalidRequest => "Invalid request.",
            ErrorKind::UnknownError => "An unknown error occurred.",
        }
    }
}

/// Failure of a JSON-returning call. A bad status code maps to a domain error;
/// a response body that cannot be read, or that is not valid JSON, is a
/// distinct local failure, not part of [`ErrorKind`].
#[derive(Clone, Copy, Debug, PartialEq, Eq, Structural)]
pub enum JsonFailure {
    Api(ErrorKind),
    BodyRead,
    Deserialize,
}

/// The fixed message attached to each JSON-call failure.
pub open spec fn spec_json_failure_message(f: JsonFailure) -> Seq<char> {
    match f {
        JsonFailure::Api(e) => spec_error_message(e),
        JsonFailure::BodyRead => "Error reading response body"@,
        JsonFailure::Deserialize => "Error deserializing JSON"@,
    }
}

impl JsonFailure {
    /// The fixed human-readable message for this failure.
    pub fn message(&self) -> (r: &'static str)
        ensures
            r@ == spec_json_failure_message(*self),
    {
        match self {
            JsonFailure::Api(e) => e.message(),
            JsonFailure::BodyRead => "Error reading response body",
            JsonFailure::Deserialize => "Error deserializing JSON",
        }
    }
}

} // verus!
