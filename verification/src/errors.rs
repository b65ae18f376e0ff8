//! Error taxonomy of the proxy.
//!
//! Startup configuration failures are fatal and reported as
//! [`ConfigurationError`]; everything that can go wrong while serving a
//! single request is a [`ProxyError`], converted at the handler boundary to
//! an HTTP status code by [`response_status_for`].

use vstd::prelude::*;

verus! {

/// A fatal error found while the process is being configured, before any
/// traffic is served.
#[derive(Clone, Copy, Debug, PartialEq, Eq, Structural)]
pub enum ConfigurationError {
    /// The supplied credential settings satisfy none of the accepted shapes.
    InvalidArguments,
    /// TLS certificate or key material could not be parsed into a client
    /// identity.
    InvalidIdentityMaterial,
}

/// A per-request failure; none of these crash the process.
#[derive(Clone, Copy, Debug, PartialEq, Eq, Structural)]
pub enum ProxyError {
    /// The inbound path does not begin with the expected route prefix.
    RouteNotFound,
    /// The outbound request could not be composed: the configured endpoint
    /// does not admit appended path segments.
    RequestBuild,
    /// The configured authorization header name is not valid HTTP header
    /// syntax.
    InvalidHeaderName,
    /// An authorization header value is not valid HTTP header syntax after
    /// substitution.
    InvalidHeaderValue,
    /// The token endpoint was unreachable, answered with an error, or
    /// returned an unusable response.
    Issuance,
    /// The upstream endpoint could not be reached or the send failed.
    UpstreamTransport,
}

/// The HTTP status code with which a request that failed with `e` is
/// answered: an unmatched route is a not-found response, every other failure
/// an internal server error.
pub fn response_status_for(e: &ProxyError) -> (status: u16)
    ensures
        status == (if e is RouteNotFound { 404u16 } else { 500u16 }),
{
    match e {
        ProxyError::RouteNotFound => 404,
        _ => 500,
    }
}

} // verus!
