//! TLS client-certificate authentication.
//!
//! Two deployment modes exist and exactly one is configured: in
//! transport-identity mode the certificate and key are parsed once, at
//! startup, into a client identity bound to the HTTP client, and
//! per-request authorization is a no-op; in header-forwarding mode the raw
//! PEM text is injected into two dedicated headers on every request for a
//! downstream terminator to validate.

use vstd::prelude::*;
use crate::errors::{ConfigurationError, ProxyError};
use crate::headers::{header_insert, Headers};
use crate::text::{check_header_value, valid_header_value};

verus! {

/// How the certificate and key authenticate the request.
#[derive(Clone, Copy, Debug, PartialEq, Eq, Structural)]
pub enum TlsMode {
    /// The identity is bound to the transport at startup; per-request
    /// authorization does nothing.
    TransportIdentity,
    /// The PEM text is forwarded verbatim in two dedicated headers on every
    /// request.
    ForwardHeaders,
}

/// Settings for TLS client certificate authentication.
pub struct TlsOptions {
    pub cert: String,
    pub key: String,
    pub mode: TlsMode,
}

/// TLS client-certificate material and the configured consumption mode.
pub struct TlsState {
    pub cert: String,
    pub key: String,
    pub mode: TlsMode,
}

#[verifier::external_type_specification]
#[verifier::external_body]
pub struct ExIdentity(reqwest::tls::Identity);

#[verifier::external_type_specification]
#[verifier::external_body]
pub struct ExReqwestError(reqwest::Error);

/// Whether `bundle` is material that parses into a client identity: one
/// PEM-encoded private key and at least one PEM-encoded certificate.  The
/// parse depends on the bundle text alone.
pub uninterp spec fn pem_material_ok(bundle: Seq<char>) -> bool;

/// Relies on reqwest::tls::Identity::from_pem: parses a buffer expected to
/// hold one PEM-encoded private key and at least one PEM-encoded
/// certificate into a client identity, and returns Err when the material is
/// malformed.  The result depends on the buffer alone.
#[verifier::external_body]
fn identity_from_pem(bundle: &str) -> (r: Result<reqwest::tls::Identity, reqwest::Error>)
    ensures
        r is Ok <==> pem_material_ok(bundle@),
{
    reqwest::tls::Identity::from_pem(bundle.as_bytes())
}

impl TlsState {
    pub fn new(args: TlsOptions) -> (s: Self)
        ensures
            s.cert == args.cert,
            s.key == args.key,
            s.mode == args.mode,
    {
        Self { cert: args.cert, key: args.key, mode: args.mode }
    }

    /// The certificate and key as one PEM bundle, certificate first,
    /// separated by a newline.
    fn pem_bundle(&self) -> (bundle: String)
        ensures
            bundle@ == self.cert@ + "\n"@ + self.key@,
    {
        let mut bundle = String::from_str(self.cert.as_str());
        bundle.append("\n");
        bundle.append(self.key.as_str());
        proof {
            assert(bundle@ =~= self.cert@ + "\n"@ + self.key@);
        }
        bundle
    }

    /// The transport-level client identity parsed from the stored material:
    /// `Ok` exactly when the certificate-then-key bundle parses; malformed
    /// material is a configuration error, fatal at startup.
    pub fn identity(&self) -> (r: Result<reqwest::tls::Identity, ConfigurationError>)
        ensures
            r is Ok <==> pem_material_ok(self.cert@ + "\n"@ + self.key@),
            r matches Err(e) ==> e == ConfigurationError::InvalidIdentityMaterial,
    {
        let bundle = self.pem_bundle();
        match identity_from_pem(bundle.as_str()) {
            Result::Ok(identity) => Result::Ok(identity),
            Result::Err(_) => Result::Err(ConfigurationError::InvalidIdentityMaterial),
        }
    }

    /// Per-request authorization.  In transport-identity mode this is a
    /// no-op: the mTLS handshake itself carries the identity.  In
    /// header-forwarding mode the certificate and key PEM text are set as
    /// the two forwarded-identity headers, provided both are valid header
    /// values; otherwise nothing is changed and the request fails with an
    /// encoding error.
    pub fn authorize(&self, headers: &mut Headers) -> (r: Result<(), ProxyError>)
        ensures
            self.mode == TlsMode::TransportIdentity ==> r is Ok && *final(headers) == *old(
                headers,
            ),
            self.mode == TlsMode::ForwardHeaders && valid_header_value(self.cert@)
                && valid_header_value(self.key@) ==> r is Ok && final(headers)@ == header_insert(
                header_insert(old(headers)@, "X-Forwarded-Client-Cert"@, self.cert@),
                "X-Forwarded-Client-Key"@,
                self.key@,
            ),
            self.mode == TlsMode::ForwardHeaders && !(valid_header_value(self.cert@)
                && valid_header_value(self.key@)) ==> r == Result::<(), ProxyError>::Err(
                ProxyError::InvalidHeaderValue,
            ) && *final(headers) == *old(headers),
    {
        match self.mode {
            TlsMode::TransportIdentity => Result::Ok(()),
            TlsMode::ForwardHeaders => {
                if !check_header_value(self.cert.as_str()) || !check_header_value(
                    self.key.as_str(),
                ) {
                    return Result::Err(ProxyError::InvalidHeaderValue);
                }
                headers.insert(String::from_str("X-Forwarded-Client-Cert"), self.cert.clone());
                headers.insert(String::from_str("X-Forwarded-Client-Key"), self.key.clone());
                Result::Ok(())
            },
        }
    }
}

} // verus!
