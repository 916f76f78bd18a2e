//! The gateway's error taxonomy. A translation failure or a missing
//! resource is local to one request: the library reports it as a value
//! and the serving loop maps it to an HTTP status.

use vstd::prelude::*;

verus! {

/// What can go wrong while a request is translated or answered.
#[derive(Debug, Clone, PartialEq)]
pub enum GatewayError {
    /// A required field was absent or an input was malformed.
    Translation(String),
    /// A lookup or a filter matched nothing.
    NotFound,
    /// A CRI call came back with a non-OK status; the upstream message
    /// is kept.
    UpstreamRpc(String),
    /// The proxied Podman backend could not be reached or answered
    /// badly.
    UpstreamProxy(String),
}

impl GatewayError {
    /// The HTTP status code a response carrying this error gets:
    /// malformed input is the client's fault, a missing resource is
    /// not found, and an upstream failure is a bad gateway.
    pub fn http_status(&self) -> (s: u16)
        ensures
            s == match self {
                GatewayError::Translation(_) => 400u16,
                GatewayError::NotFound => 404u16,
                GatewayError::UpstreamRpc(_) => 502u16,
                GatewayError::UpstreamProxy(_) => 502u16,
            },
    {
        match self {
            GatewayError::Translation(_) => 400,
            GatewayError::NotFound => 404,
            GatewayError::UpstreamRpc(_) => 502,
            GatewayError::UpstreamProxy(_) => 502,
        }
    }

    /// A human-readable message for the response body.
    pub fn message(&self) -> (m: String)
        ensures
            match self {
                GatewayError::Translation(t) => m@ == t@,
                GatewayError::NotFound => m@ == "no such resource"@,
                GatewayError::UpstreamRpc(t) => m@ == t@,
                GatewayError::UpstreamProxy(t) => m@ == t@,
            },
    {
        match self {
            GatewayError::Translation(t) => t.clone(),
            GatewayError::NotFound => "no such resource".to_owned(),
            GatewayError::UpstreamRpc(t) => t.clone(),
            GatewayError::UpstreamProxy(t) => t.clone(),
        }
    }
}

/// Extracts the value of a result whose error cannot exist. The
/// serving loop's service factory reports such a result.
pub fn unwrap_infallible<T>(result: Result<T, core::convert::Infallible>) -> (v: T)
    requires
        result is Ok,
    ensures
        v == result->Ok_0,
{
    match result {
        Ok(value) => value,
        Err(_) => vstd::pervasive::unreached(),
    }
}

} // verus!
