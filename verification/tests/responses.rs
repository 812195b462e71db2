//! Status-code translation, endpoint-keyed dispatch, and JSON handling,
//! exercised as a test-double server would: by feeding each documented
//! status code and checking the mapped outcome.

use outline_api::error::{ErrorKind, JsonFailure};
use outline_api::request::ErrorContext;
use outline_api::response::{handle_json_api_error, handle_response_status, json_result,
    mutation_result, HttpOutcome};

#[test]
fn success_statuses_on_every_mutation_endpoint() {
    let contexts = [
        ErrorContext::ServerName,
        ErrorContext::Hostname,
        ErrorContext::Port,
        ErrorContext::GlobalDataLimit,
        ErrorContext::AccessKeys,
        ErrorContext::Metrics,
    ];
    for ctx in contexts {
        assert_eq!(handle_response_status(ctx, 200), Ok(()));
        assert_eq!(handle_response_status(ctx, 204), Ok(()));
    }
}

#[test]
fn documented_statuses_map_exactly() {
    // Hostname endpoint.
    assert_eq!(
        handle_response_status(ErrorContext::Hostname, 400),
        Err(ErrorKind::InvalidHostname)
    );
    assert_eq!(
        handle_response_status(ErrorContext::Hostname, 500),
        Err(ErrorKind::InternalError)
    );
    // Port endpoint.
    assert_eq!(handle_response_status(ErrorContext::Port, 400), Err(ErrorKind::InvalidPort));
    assert_eq!(handle_response_status(ErrorContext::Port, 409), Err(ErrorKind::PortConflict));
    // Data-limit endpoints.
    assert_eq!(
        handle_response_status(ErrorContext::GlobalDataLimit, 400),
        Err(ErrorKind::InvalidDataLimit)
    );
    assert_eq!(
        handle_response_status(ErrorContext::AccessKeys, 400),
        Err(ErrorKind::InvalidDataLimit)
    );
    // Server rename.
    assert_eq!(
        handle_response_status(ErrorContext::ServerName, 400),
        Err(ErrorKind::InvalidName)
    );
    // Metrics toggle.
    assert_eq!(
        handle_response_status(ErrorContext::Metrics, 400),
        Err(ErrorKind::InvalidRequest)
    );
    // Undocumented status.
    assert_eq!(
        handle_response_status(ErrorContext::AccessKeys, 418),
        Err(ErrorKind::UnknownError)
    );
}

#[test]
fn same_status_different_endpoints_different_errors() {
    let on_hostname = handle_response_status(ErrorContext::Hostname, 400);
    let on_port = handle_response_status(ErrorContext::Port, 400);
    let on_access_keys = handle_response_status(ErrorContext::AccessKeys, 400);
    assert_eq!(on_hostname, Err(ErrorKind::InvalidHostname));
    assert_eq!(on_port, Err(ErrorKind::InvalidPort));
    assert_eq!(on_access_keys, Err(ErrorKind::InvalidDataLimit));
    assert_ne!(on_hostname, on_port);
    assert_ne!(on_hostname, on_access_keys);
    assert_ne!(on_port, on_access_keys);
}

#[test]
fn not_found_on_access_key_scoped_endpoints() {
    // Delete, rename, set limit and remove limit all dispatch under the
    // access-keys context; 404 must read as a missing access key.
    assert_eq!(
        handle_response_status(ErrorContext::AccessKeys, 404),
        Err(ErrorKind::AccessKeyInexistent)
    );
}

#[test]
fn conflict_is_port_conflict_only_on_port_endpoint() {
    assert_eq!(handle_response_status(ErrorContext::Port, 409), Err(ErrorKind::PortConflict));
    for ctx in [
        ErrorContext::Server,
        ErrorContext::ServerName,
        ErrorContext::Hostname,
        ErrorContext::GlobalDataLimit,
        ErrorContext::AccessKeys,
        ErrorContext::Metrics,
    ] {
        assert_eq!(handle_response_status(ctx, 409), Err(ErrorKind::UnknownError));
    }
}

#[test]
fn removing_global_limit_twice_succeeds_both_times() {
    // A stub server answers 204 to every DELETE on the global data-limit
    // path, also when no limit is set; both calls must succeed.
    let first = mutation_result(
        ErrorContext::GlobalDataLimit,
        &HttpOutcome::Response(204, None),
    );
    assert_eq!(first, Ok(()));
    let second = mutation_result(
        ErrorContext::GlobalDataLimit,
        &HttpOutcome::Response(204, None),
    );
    assert_eq!(second, Ok(()));
}

#[test]
fn transport_failure_is_unknown_server_error() {
    // A request that timed out or never connected surfaces as
    // UnknownServerError, on mutation and JSON calls alike.
    assert_eq!(
        mutation_result(ErrorContext::Hostname, &HttpOutcome::TransportFailure),
        Err(ErrorKind::UnknownServerError)
    );
    assert_eq!(
        json_result(&HttpOutcome::TransportFailure),
        Err(JsonFailure::Api(ErrorKind::UnknownServerError))
    );
}

#[test]
fn json_ok_round_trips() {
    let body = "{\"id\":\"1\",\"name\":\"k\"}";
    let v = handle_json_api_error(200, Some(body)).unwrap();
    // Serialize the returned value and read it back: the same value.
    let reprinted = serde_json::to_string(&v).unwrap();
    let again = handle_json_api_error(200, Some(&reprinted)).unwrap();
    assert_eq!(v, again);
    assert_eq!(v["id"], serde_json::Value::String("1".to_string()));
    assert_eq!(v["name"], serde_json::Value::String("k".to_string()));
}

#[test]
fn json_invalid_body_is_a_parse_error() {
    assert_eq!(
        handle_json_api_error(200, Some("{not json")),
        Err(JsonFailure::Deserialize)
    );
}

#[test]
fn json_unreadable_body_is_a_read_error() {
    assert_eq!(handle_json_api_error(200, None), Err(JsonFailure::BodyRead));
}

#[test]
fn json_bad_statuses() {
    assert_eq!(
        handle_json_api_error(500, Some("{}")),
        Err(JsonFailure::Api(ErrorKind::InternalError))
    );
    // Only 200 counts as success for JSON-returning calls; a 201 falls
    // outside the documented mapping.
    assert_eq!(
        handle_json_api_error(201, Some("{}")),
        Err(JsonFailure::Api(ErrorKind::UnknownError))
    );
    assert_eq!(
        handle_json_api_error(404, None),
        Err(JsonFailure::Api(ErrorKind::UnknownError))
    );
}

#[test]
fn json_result_reads_response_body() {
    let outcome = HttpOutcome::Response(200, Some("[1,2,3]".to_string()));
    let v = json_result(&outcome).unwrap();
    assert_eq!(v, serde_json::from_str::<serde_json::Value>("[1,2,3]").unwrap());
    let unreadable = HttpOutcome::Response(200, None);
    assert_eq!(json_result(&unreadable), Err(JsonFailure::BodyRead));
}

#[test]
fn error_messages_are_fixed() {
    assert_eq!(ErrorKind::UnknownServerError.message(), "An unknown server error occurred.");
    assert_eq!(ErrorKind::InternalError.message(), "An internal error occurred.");
    assert_eq!(
        ErrorKind::InvalidHostname.message(),
        "An invalid hostname or IP address was provided."
    );
    assert_eq!(
        ErrorKind::InvalidPort.message(),
        "The requested port wasn't an integer from 1 through 65535, or the request had no port parameter."
    );
    assert_eq!(
        ErrorKind::PortConflict.message(),
        "The requested port was already in use by another service."
    );
    assert_eq!(ErrorKind::InvalidDataLimit.message(), "Invalid data limit.");
    assert_eq!(ErrorKind::AccessKeyInexistent.message(), "Access key inexistent.");
    assert_eq!(ErrorKind::InvalidName.message(), "Invalid name.");
    assert_eq!(ErrorKind::InvalidRequest.message(), "Invalid request.");
    assert_eq!(ErrorKind::UnknownError.message(), "An unknown error occurred.");
}

#[test]
fn json_failure_messages_are_fixed() {
    assert_eq!(JsonFailure::BodyRead.message(), "Error reading response body");
    assert_eq!(JsonFailure::Deserialize.message(), "Error deserializing JSON");
    assert_eq!(
        JsonFailure::Api(ErrorKind::InternalError).message(),
        "An internal error occurred."
    );
}
