//! Translating an HTTP response into the documented outcome.
//!
//! Two response shapes exist. Mutation calls succeed on `200`/`204` and map
//! every other status to one [`ErrorKind`], chosen by a table keyed on the
//! endpoint's [`ErrorContext`]. JSON-returning calls parse the body of a
//! `200` response and surface a body problem as a local failure distinct
//! from the [`ErrorKind`] table. A transport failure (connection, TLS,
//! timeout) always collapses to [`ErrorKind::UnknownServerError`].

use vstd::prelude::*;
use crate::error::{ErrorKind, JsonFailure};
use crate::request::ErrorContext;

verus! {

#[verifier::external_type_specification]
#[verifier::external_body]
pub struct ExValue(serde_json::Value);

#[verifier::external_type_specification]
#[verifier::external_body]
pub struct ExJsonError(serde_json::Error);

/// What serde_json's parser makes of a text: a value exactly when the text
/// is well-formed JSON. The parse depends on the text alone, so the result
/// can be given a name without saying which value it is.
pub uninterp spec fn parsed_json(text: Seq<char>) -> Option<serde_json::Value>;

/// Relies on `serde_json::from_str::<serde_json::Value>`: a pure parser,
/// whose success and result depend on the input text alone.
#[verifier::external_body]
fn parse_json(text: &str) -> (r: Result<serde_json::Value, serde_json::Error>)
    ensures
        r is Ok <==> parsed_json(text@) is Some,
        r matches Ok(v) ==> parsed_json(text@) == Some(v),
{
    serde_json::from_str(text)
}

/// The error that a `400 Bad Request` maps to, by endpoint.
pub open spec fn spec_bad_request_error(context: ErrorContext) -> ErrorKind {
    match context {
        ErrorContext::ServerName => ErrorKind::InvalidName,
        ErrorContext::Hostname => ErrorKind::InvalidHostname,
        ErrorContext::Port => ErrorKind::InvalidPort,
        ErrorContext::GlobalDataLimit => ErrorKind::InvalidDataLimit,
        ErrorContext::AccessKeys => ErrorKind::InvalidDataLimit,
        ErrorContext::Server => ErrorKind::InvalidRequest,
        ErrorContext::Metrics => ErrorKind::InvalidRequest,
    }
}

/// The outcome of a mutation call, from the endpoint's error context and the
/// response status code: `200`/`204` succeed; `400` maps through
/// [`spec_bad_request_error`]; `409` is a port conflict on the port endpoint
/// only; `404` means the access key does not exist; `500` is an internal
/// error; everything else is unknown.
pub open spec fn spec_status_outcome(context: ErrorContext, status: int) -> Result<(), ErrorKind> {
    if status == 200 || status == 204 {
        Ok(())
    } else if status == 400 {
        Err(spec_bad_request_error(context))
    } else if status == 409 {
        if context == ErrorContext::Port {
            Err(ErrorKind::PortConflict)
        } else {
            Err(ErrorKind::UnknownError)
        }
    } else if status == 404 {
        Err(ErrorKind::AccessKeyInexistent)
    } else if status == 500 {
        Err(ErrorKind::InternalError)
    } else {
        Err(ErrorKind::UnknownError)
    }
}

/// Maps the status code of a mutation response to its outcome.
pub fn handle_response_status(context: ErrorContext, status: u16) -> (r: Result<(), ErrorKind>)
    ensures
        r == spec_status_outcome(context, status as int),
{
    if status == 200 || status == 204 {
        Ok(())
    } else if status == 400 {
        match context {
            ErrorContext::ServerName => Err(ErrorKind::InvalidName),
            ErrorContext::Hostname => Err(ErrorKind::InvalidHostname),
            ErrorContext::Port => Err(ErrorKind::InvalidPort),
            ErrorContext::GlobalDataLimit => Err(ErrorKind::InvalidDataLimit),
            ErrorContext::AccessKeys => Err(ErrorKind::InvalidDataLimit),
            ErrorContext::Server => Err(ErrorKind::InvalidRequest),
            ErrorContext::Metrics => Err(ErrorKind::InvalidRequest),
        }
    } else if status == 409 {
        if matches!(context, ErrorContext::Port) {
            Err(ErrorKind::PortConflict)
        } else {
            Err(ErrorKind::UnknownError)
        }
    } else if status == 404 {
        Err(ErrorKind::AccessKeyInexistent)
    } else if status == 500 {
        Err(ErrorKind::InternalError)
    } else {
        Err(ErrorKind::UnknownError)
    }
}

/// The view of an optional borrowed text.
pub open spec fn spec_opt_str_view(body: Option<&str>) -> Option<Seq<char>> {
    match body {
        Option::Some(text) => Option::Some(text@),
        Option::None => Option::None,
    }
}

/// The view of an optional owned text.
pub open spec fn spec_opt_string_view(body: &Option<String>) -> Option<Seq<char>> {
    match body {
        Option::Some(text) => Option::Some(text@),
        Option::None => Option::None,
    }
}

/// The outcome of a JSON-returning call, from the response status code and
/// body text (`None` where the body could not be read): a `200` response
/// yields its parsed body, or a local failure where the body is unreadable
/// or not valid JSON; `500` is an internal error; everything else is
/// unknown.
pub open spec fn spec_json_outcome(status: int, body: Option<Seq<char>>) -> Result<
    serde_json::Value,
    JsonFailure,
> {
    if status == 200 {
        match body {
            Option::None => Err(JsonFailure::BodyRead),
            Option::Some(text) => match parsed_json(text) {
                Option::Some(v) => Ok(v),
                Option::None => Err(JsonFailure::Deserialize),
            },
        }
    } else if status == 500 {
        Err(JsonFailure::Api(ErrorKind::InternalError))
    } else {
        Err(JsonFailure::Api(ErrorKind::UnknownError))
    }
}

/// Maps the status code and body of a JSON-returning response to its
/// outcome.
pub fn handle_json_api_error(status: u16, body: Option<&str>) -> (r: Result<
    serde_json::Value,
    JsonFailure,
>)
    ensures
        r == spec_json_outcome(status as int, spec_opt_str_view(body)),
{
    if status == 200 {
        match body {
            Option::None => Err(JsonFailure::BodyRead),
            Option::Some(text) => match parse_json(text) {
                Result::Ok(v) => Ok(v),
                Result::Err(_) => Err(JsonFailure::Deserialize),
            },
        }
    } else if status == 500 {
        Err(JsonFailure::Api(ErrorKind::InternalError))
    } else {
        Err(JsonFailure::Api(ErrorKind::UnknownError))
    }
}

/// What the transport observed for one request: either it failed before any
/// response arrived (connection refused, DNS, TLS, timeout), or a response
/// arrived with a status code and possibly a body text (`None` where the
/// body could not be read, or was not read).
pub enum HttpOutcome {
    TransportFailure,
    Response(u16, Option<String>),
}

/// The outcome of a mutation call, transport failures included: a failed
/// transport is an unknown server error, a response goes through the status
/// table for this endpoint.
pub fn mutation_result(context: ErrorContext, outcome: &HttpOutcome) -> (r: Result<
    (),
    ErrorKind,
>)
    ensures
        *outcome is TransportFailure ==> r == Err::<(), ErrorKind>(ErrorKind::UnknownServerError),
        *outcome matches HttpOutcome::Response(status, _) ==> r == spec_status_outcome(
            context,
            status as int,
        ),
{
    match outcome {
        HttpOutcome::TransportFailure => Err(ErrorKind::UnknownServerError),
        HttpOutcome::Response(status, _) => handle_response_status(context, *status),
    }
}

/// The outcome of a JSON-returning call, transport failures included: a
/// failed transport is an unknown server error, a response goes through the
/// JSON status handling.
pub fn json_result(outcome: &HttpOutcome) -> (r: Result<serde_json::Value, JsonFailure>)
    ensures
        *outcome is TransportFailure ==> r == Err::<serde_json::Value, JsonFailure>(
            JsonFailure::Api(ErrorKind::UnknownServerError),
        ),
        *outcome matches HttpOutcome::Response(status, body) ==> r == spec_json_outcome(
            status as int,
            spec_opt_string_view(&body),
        ),
{
    match outcome {
        HttpOutcome::TransportFailure => Err(JsonFailure::Api(ErrorKind::UnknownServerError)),
        HttpOutcome::Response(status, body) => match body {
            Option::None => handle_json_api_error(*status, None),
            Option::Some(text) => handle_json_api_error(*status, Some(text.as_str())),
        },
    }
}

/// Law: a `200` or `204` response to a mutation is a success, whatever the
/// endpoint.
pub proof fn lemma_success_statuses(context: ErrorContext, status: int)
    requires
        status == 200 || status == 204,
    ensures
        spec_status_outcome(context, status) is Ok,
{
}

/// Law: a `404` response maps to [`ErrorKind::AccessKeyInexistent`] — in
/// particular on every access-key-scoped endpoint (delete, rename, set or
/// remove a limit).
pub proof fn lemma_not_found_is_missing_key(context: ErrorContext)
    ensures
        spec_status_outcome(context, 404) == Err::<(), ErrorKind>(ErrorKind::AccessKeyInexistent),
{
}

/// Law: a `409` response is a port conflict on the port-change endpoint, and
/// falls outside the documented mapping — an unknown error — anywhere else.
pub proof fn lemma_conflict_only_on_port(context: ErrorContext)
    ensures
        context == ErrorContext::Port ==> spec_status_outcome(context, 409) == Err::<
            (),
            ErrorKind,
        >(ErrorKind::PortConflict),
        context != ErrorContext::Port ==> spec_status_outcome(context, 409) == Err::<
            (),
            ErrorKind,
        >(ErrorKind::UnknownError),
{
}

/// Law: a status that the mutation mapping does not enumerate yields
/// [`ErrorKind::UnknownError`], whatever the endpoint.
pub proof fn lemma_undocumented_status_is_unknown(context: ErrorContext, status: int)
    requires
        status != 200,
        status != 204,
        status != 400,
        status != 404,
        status != 409,
        status != 500,
    ensures
        spec_status_outcome(context, status) == Err::<(), ErrorKind>(ErrorKind::UnknownError),
{
}

/// Law: for a JSON-returning call, only `200` counts as success and only
/// `500` is an internal error; every other status is unknown, whatever the
/// body held.
pub proof fn lemma_json_undocumented_status_is_unknown(status: int, body: Option<Seq<char>>)
    requires
        status != 200,
        status != 500,
    ensures
        spec_json_outcome(status, body) == Err::<serde_json::Value, JsonFailure>(
            JsonFailure::Api(ErrorKind::UnknownError),
        ),
{
}

} // verus!
