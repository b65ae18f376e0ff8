//! The outbound request composed for the upstream endpoint, and the response
//! mirrored back to the caller.  Both are transient values owned by a single
//! handler invocation.

use vstd::prelude::*;
use crate::headers::Headers;

verus! {

/// An outbound HTTP request: everything the proxy copies from the inbound
/// request, plus the destination URL it composed.
pub struct ProxyRequest {
    pub method: String,
    pub destination: String,
    pub headers: Headers,
    pub query: Vec<(String, String)>,
    pub body: Vec<u8>,
}

/// What is answered to the caller: the upstream status code and body.
pub struct ProxyResponse {
    pub status: u16,
    pub body: Vec<u8>,
}

impl ProxyRequest {
    /// `other` differs from `self` at most in its headers.
    pub open spec fn same_except_headers(&self, other: &Self) -> bool {
        &&& self.method == other.method
        &&& self.destination == other.destination
        &&& self.query == other.query
        &&& self.body == other.body
    }
}

/// Builds the response mirrored back to the caller: the upstream status and
/// body, verbatim.  Upstream headers are not mirrored; that is the
/// documented contract of the proxy, not an omission.
pub fn mirror_response(status: u16, body: Vec<u8>) -> (r: ProxyResponse)
    ensures
        r.status == status,
        r.body == body,
{
    ProxyResponse { status, body }
}

} // verus!
