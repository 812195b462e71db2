//! Verified core of a management client for an Outline VPN server.
//!
//! The server is administered over a small REST API. Everything that can be
//! decided without touching the network lives here and is verified: building
//! each request (HTTP method, path, JSON body), and translating a response
//! (status code, body text) into the documented outcome. The transport itself
//! is left to the embedding application.

pub mod error;
pub mod render;
pub mod request;
pub mod response;
