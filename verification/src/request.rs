//! Building one HTTP request per management operation.
//!
//! Every operation of the management API is a single request: an HTTP method,
//! a path below the management base URL, and (for some operations) a JSON
//! body. The builders here produce that triple exactly as the API documents
//! it, with user-supplied strings escaped so the body is always well-formed
//! JSON, together with the error context that decides how a bad status code
//! on this endpoint is read.

use vstd::prelude::*;
use vstd::string::StringExecFns;
use crate::render::{escape_json_string, push_decimal, spec_decimal, spec_escaped};

verus! {

/// The HTTP method of a request.
#[derive(Clone, Copy, Debug, PartialEq, Eq, Structural)]
pub enum Method {
    Get,
    Put,
    Post,
    Delete,
}

/// The upper-case name of an HTTP method, as it appears on the wire.
pub open spec fn spec_method_name(m: Method) -> Seq<char> {
    match m {
        Method::Get => "GET"@,
        Method::Put => "PUT"@,
        Method::Post => "POST"@,
        Method::Delete => "DELETE"@,
    }
}

impl Method {
    /// The upper-case name of this method.
    pub fn name(&self) -> (r: &'static str)
        ensures
            r@ == spec_method_name(*self),
    {
        match self {
            Method::Get => "GET",
            Method::Put => "PUT",
            Method::Post => "POST",
            Method::Delete => "DELETE",
        }
    }
}

/// Which endpoint's error table applies when a response carries a bad status
/// code. The same numeric status maps to different [`crate::error::ErrorKind`]
/// values depending on this context.
#[derive(Clone, Copy, Debug, PartialEq, Eq, Structural)]
pub enum ErrorContext {
    /// `GET /server`: the server information document.
    Server,
    /// `PUT /name`: renaming the server.
    ServerName,
    /// `PUT /server/hostname-for-access-keys`.
    Hostname,
    /// `PUT /server/port-for-new-access-keys`.
    Port,
    /// `PUT`/`DELETE /server/access-key-data-limit`.
    GlobalDataLimit,
    /// Everything below `/access-keys`.
    AccessKeys,
    /// Everything below `/metrics`.
    Metrics,
}

/// One fully built management request, ready to be sent by a transport.
pub struct Request {
    pub method: Method,
    pub path: String,
    pub body: String,
    pub context: ErrorContext,
}

/// The body sent to change the hostname for access keys.
pub open spec fn spec_hostname_body(hostname: Seq<char>) -> Seq<char> {
    "{\"hostname\":\""@ + spec_escaped(hostname) + "\"}"@
}

/// The body sent to change the default port for new access keys.
pub open spec fn spec_port_body(port: nat) -> Seq<char> {
    "{\"port\":"@ + spec_decimal(port) + "}"@
}

/// The body sent to set a data transfer limit, global or per key.
pub open spec fn spec_limit_body(bytes: nat) -> Seq<char> {
    "{\"limit\":{\"bytes\":"@ + spec_decimal(bytes) + "}}"@
}

/// The body sent to rename the server or an access key.
pub open spec fn spec_name_body(name: Seq<char>) -> Seq<char> {
    "{\"name\":\""@ + spec_escaped(name) + "\"}"@
}

/// The body sent to enable or disable metrics sharing.
pub open spec fn spec_metrics_body(enabled: bool) -> Seq<char> {
    if enabled {
        "{\"metricsEnabled\":true}"@
    } else {
        "{\"metricsEnabled\":false}"@
    }
}

/// The path of the access key with the given id.
pub open spec fn spec_access_key_path(id: nat) -> Seq<char> {
    "/access-keys/"@ + spec_decimal(id)
}

/// A request with an empty body.
fn bodyless(method: Method, path: &str, context: ErrorContext) -> (r: Request)
    ensures
        r.method == method,
        r.path@ == path@,
        r.body@ == Seq::<char>::empty(),
        r.context == context,
{
    Request { method, path: String::from_str(path), body: String::new(), context }
}

/// `GET /server`: fetch the server information document.
pub fn get_server_info_request() -> (r: Request)
    ensures
        r.method == Method::Get,
        r.path@ == "/server"@,
        r.body@ == Seq::<char>::empty(),
        r.context == ErrorContext::Server,
{
    bodyless(Method::Get, "/server", ErrorContext::Server)
}

/// `PUT /server/hostname-for-access-keys`: change the hostname that access
/// keys are issued for.
pub fn change_hostname_for_access_keys_request(hostname: &str) -> (r: Request)
    ensures
        r.method == Method::Put,
        r.path@ == "/server/hostname-for-access-keys"@,
        r.body@ == spec_hostname_body(hostname@),
        r.context == ErrorContext::Hostname,
{
    let mut body = String::from_str("{\"hostname\":\"");
    let escaped = escape_json_string(hostname);
    body.append(escaped.as_str());
    body.append("\"}");
    assert(body@ =~= spec_hostname_body(hostname@));
    Request {
        method: Method::Put,
        path: String::from_str("/server/hostname-for-access-keys"),
        body,
        context: ErrorContext::Hostname,
    }
}

/// `PUT /server/port-for-new-access-keys`: change the default port for newly
/// created access keys.
pub fn change_default_port_for_newly_created_access_request(port: u16) -> (r: Request)
    ensures
        r.method == Method::Put,
        r.path@ == "/server/port-for-new-access-keys"@,
        r.body@ == spec_port_body(port as nat),
        r.context == ErrorContext::Port,
{
    let mut body = String::from_str("{\"port\":");
    push_decimal(&mut body, port as u64);
    body.append("}");
    assert(body@ =~= spec_port_body(port as nat));
    Request {
        method: Method::Put,
        path: String::from_str("/server/port-for-new-access-keys"),
        body,
        context: ErrorContext::Port,
    }
}

/// `PUT /server/access-key-data-limit`: set the data transfer limit for all
/// access keys.
pub fn set_data_transfer_limit_for_all_access_keys_request(bytes: u64) -> (r: Request)
    ensures
        r.method == Method::Put,
        r.path@ == "/server/access-key-data-limit"@,
        r.body@ == spec_limit_body(bytes as nat),
        r.context == ErrorContext::GlobalDataLimit,
{
    let mut body = String::from_str("{\"limit\":{\"bytes\":");
    push_decimal(&mut body, bytes);
    body.append("}}");
    assert(body@ =~= spec_limit_body(bytes as nat));
    Request {
        method: Method::Put,
        path: String::from_str("/server/access-key-data-limit"),
        body,
        context: ErrorContext::GlobalDataLimit,
    }
}

/// `DELETE /server/access-key-data-limit`: remove the data transfer limit for
/// all access keys.
pub fn remove_data_limit_for_all_access_keys_request() -> (r: Request)
    ensures
        r.method == Method::Delete,
        r.path@ == "/server/access-key-data-limit"@,
        r.body@ == Seq::<char>::empty(),
        r.context == ErrorContext::GlobalDataLimit,
{
    bodyless(Method::Delete, "/server/access-key-data-limit", ErrorContext::GlobalDataLimit)
}

/// `PUT /name`: rename the server.
pub fn rename_server_request(name: &str) -> (r: Request)
    ensures
        r.method == Method::Put,
        r.path@ == "/name"@,
        r.body@ == spec_name_body(name@),
        r.context == ErrorContext::ServerName,
{
    let mut body = String::from_str("{\"name\":\"");
    let escaped = escape_json_string(name);
    body.append(escaped.as_str());
    body.append("\"}");
    assert(body@ =~= spec_name_body(name@));
    Request {
        method: Method::Put,
        path: String::from_str("/name"),
        body,
        context: ErrorContext::ServerName,
    }
}

/// `POST /access-keys`: create a new access key.
pub fn create_access_key_request() -> (r: Request)
    ensures
        r.method == Method::Post,
        r.path@ == "/access-keys"@,
        r.body@ == Seq::<char>::empty(),
        r.context == ErrorContext::AccessKeys,
{
    bodyless(Method::Post, "/access-keys", ErrorContext::AccessKeys)
}

/// `GET /access-keys`: list all access keys.
pub fn list_access_keys_request() -> (r: Request)
    ensures
        r.method == Method::Get,
        r.path@ == "/access-keys"@,
        r.body@ == Seq::<char>::empty(),
        r.context == ErrorContext::AccessKeys,
{
    bodyless(Method::Get, "/access-keys", ErrorContext::AccessKeys)
}

/// `DELETE /access-keys/{id}`: delete an access key.
pub fn delete_access_key_by_id_request(id: u16) -> (r: Request)
    ensures
        r.method == Method::Delete,
        r.path@ == spec_access_key_path(id as nat),
        r.body@ == Seq::<char>::empty(),
        r.context == ErrorContext::AccessKeys,
{
    let mut path = String::from_str("/access-keys/");
    push_decimal(&mut path, id as u64);
    assert(path@ =~= spec_access_key_path(id as nat));
    Request {
        method: Method::Delete,
        path,
        body: String::new(),
        context: ErrorContext::AccessKeys,
    }
}

/// `PUT /access-keys/{id}/name`: rename an access key.
pub fn change_name_for_access_key_request(id: u16, username: &str) -> (r: Request)
    ensures
        r.method == Method::Put,
        r.path@ == spec_access_key_path(id as nat) + "/name"@,
        r.body@ == spec_name_body(username@),
        r.context == ErrorContext::AccessKeys,
{
    let mut path = String::from_str("/access-keys/");
    push_decimal(&mut path, id as u64);
    path.append("/name");
    assert(path@ =~= spec_access_key_path(id as nat) + "/name"@);
    let mut body = String::from_str("{\"name\":\"");
    let escaped = escape_json_string(username);
    body.append(escaped.as_str());
    body.append("\"}");
    assert(body@ =~= spec_name_body(username@));
    Request { method: Method::Put, path, body, context: ErrorContext::AccessKeys }
}

/// `PUT /access-keys/{id}/data-limit`: set the data transfer limit for one
/// access key.
pub fn set_data_transfer_limit_by_id_request(id: u16, bytes: u64) -> (r: Request)
    ensures
        r.method == Method::Put,
        r.path@ == spec_access_key_path(id as nat) + "/data-limit"@,
        r.body@ == spec_limit_body(bytes as nat),
        r.context == ErrorContext::AccessKeys,
{
    let mut path = String::from_str("/access-keys/");
    push_decimal(&mut path, id as u64);
    path.append("/data-limit");
    assert(path@ =~= spec_access_key_path(id as nat) + "/data-limit"@);
    let mut body = String::from_str("{\"limit\":{\"bytes\":");
    push_decimal(&mut body, bytes);
    body.append("}}");
    assert(body@ =~= spec_limit_body(bytes as nat));
    Request { method: Method::Put, path, body, context: ErrorContext::AccessKeys }
}

/// `DELETE /access-keys/{id}/data-limit`: remove the data transfer limit of
/// one access key.
pub fn del_data_transfer_limit_by_id_request(id: u16) -> (r: Request)
    ensures
        r.method == Method::Delete,
        r.path@ == spec_access_key_path(id as nat) + "/data-limit"@,
        r.body@ == Seq::<char>::empty(),
        r.context == ErrorContext::AccessKeys,
{
    let mut path = String::from_str("/access-keys/");
    push_decimal(&mut path, id as u64);
    path.append("/data-limit");
    assert(path@ =~= spec_access_key_path(id as nat) + "/data-limit"@);
    Request {
        method: Method::Delete,
        path,
        body: String::new(),
        context: ErrorContext::AccessKeys,
    }
}

/// `GET /metrics/transfer`: the bytes transferred per access key.
pub fn get_each_access_key_data_transferred_request() -> (r: Request)
    ensures
        r.method == Method::Get,
        r.path@ == "/metrics/transfer"@,
        r.body@ == Seq::<char>::empty(),
        r.context == ErrorContext::Metrics,
{
    bodyless(Method::Get, "/metrics/transfer", ErrorContext::Metrics)
}

/// `GET /metrics/enabled`: whether anonymous metrics sharing is on.
pub fn get_whether_metrics_is_being_shared_request() -> (r: Request)
    ensures
        r.method == Method::Get,
        r.path@ == "/metrics/enabled"@,
        r.body@ == Seq::<char>::empty(),
        r.context == ErrorContext::Metrics,
{
    bodyless(Method::Get, "/metrics/enabled", ErrorContext::Metrics)
}

/// `PUT /metrics/enabled`: enable or disable anonymous metrics sharing.
pub fn enable_or_disable_sharing_metrics_request(metrics_enabled: bool) -> (r: Request)
    ensures
        r.method == Method::Put,
        r.path@ == "/metrics/enabled"@,
        r.body@ == spec_metrics_body(metrics_enabled),
        r.context == ErrorContext::Metrics,
{
    let body = if metrics_enabled {
        String::from_str("{\"metricsEnabled\":true}")
    } else {
        String::from_str("{\"metricsEnabled\":false}")
    };
    Request {
        method: Method::Put,
        path: String::from_str("/metrics/enabled"),
        body,
        context: ErrorContext::Metrics,
    }
}

/// The full URL of a request: the management base URL (which embeds the
/// secret path segment) followed by the request path.
pub fn join_url(base_url: &str, path: &str) -> (r: String)
    ensures
        r@ == base_url@ + path@,
{
    let mut url = String::from_str(base_url);
    url.append(path);
    url
}

} // verus!
