//! Startup configuration: deciding which authorization mechanism the
//! supplied credential settings select.
//!
//! Exactly one accepted shape must be satisfied; anything else is a fatal
//! configuration error reported before the server starts, never a crash
//! while serving.

use vstd::prelude::*;
use crate::errors::ConfigurationError;
use crate::oauth::OAuthClientCredentialsOptions;
use crate::tls::TlsMode;

verus! {

/// The credential settings handed in at startup, already read from the
/// command line or the environment.  Certificate and key may arrive as
/// inline text or as file paths; reading the files is the caller's job.
pub struct AuthConfig {
    pub client_id: Option<String>,
    pub client_secret: Option<String>,
    pub auth_url: Option<String>,
    pub token_url: Option<String>,
    pub audience: Option<String>,
    pub header_name: String,
    pub header_value: String,
    pub cert: Option<String>,
    pub cert_file: Option<String>,
    pub key: Option<String>,
    pub key_file: Option<String>,
    pub tls_mode: TlsMode,
}

/// Which mechanism the settings select.  TLS material given as file paths
/// still has to be read by the caller, so that case names the paths rather
/// than the material.
pub enum AuthPlan {
    NoAuth,
    OAuth(OAuthClientCredentialsOptions),
    TlsInline(String, String, TlsMode),
    TlsFromFiles(String, String, TlsMode),
}

impl AuthConfig {
    /// No credential setting at all was supplied.
    pub open spec fn nothing_given(&self) -> bool {
        &&& self.client_id is None
        &&& self.client_secret is None
        &&& self.auth_url is None
        &&& self.token_url is None
        &&& self.audience is None
        &&& self.cert is None
        &&& self.cert_file is None
        &&& self.key is None
        &&& self.key_file is None
    }

    /// All four required OAuth settings were supplied.
    pub open spec fn oauth_given(&self) -> bool {
        &&& self.client_id is Some
        &&& self.client_secret is Some
        &&& self.auth_url is Some
        &&& self.token_url is Some
    }

    /// A usable TLS material pair was supplied, inline or as file paths.
    pub open spec fn tls_given(&self) -> bool {
        ||| (self.cert is Some && self.key is Some)
        ||| (self.cert_file is Some && self.key_file is Some)
    }
}

/// What [`determine_auth`] decides.  Exactly one credential shape —
/// no-credentials, OAuth, or TLS — must be satisfied: settings that satisfy
/// both the OAuth and the TLS shape are ambiguous and rejected, as is any
/// combination that satisfies none.  Within the TLS shape, inline material
/// takes precedence over file paths.
pub open spec fn determine_auth_spec(c: AuthConfig) -> Result<AuthPlan, ConfigurationError> {
    if c.nothing_given() {
        Result::Ok(AuthPlan::NoAuth)
    } else if c.oauth_given() && c.tls_given() {
        Result::Err(ConfigurationError::InvalidArguments)
    } else if c.oauth_given() {
        Result::Ok(
            AuthPlan::OAuth(
                OAuthClientCredentialsOptions {
                    client_id: c.client_id->0,
                    client_secret: c.client_secret->0,
                    auth_url: c.auth_url->0,
                    token_url: c.token_url->0,
                    audience: c.audience,
                    header_name: c.header_name,
                    header_value: c.header_value,
                },
            ),
        )
    } else if c.cert is Some && c.key is Some {
        Result::Ok(AuthPlan::TlsInline(c.cert->0, c.key->0, c.tls_mode))
    } else if c.cert_file is Some && c.key_file is Some {
        Result::Ok(AuthPlan::TlsFromFiles(c.cert_file->0, c.key_file->0, c.tls_mode))
    } else {
        Result::Err(ConfigurationError::InvalidArguments)
    }
}

/// Decides the authorization mechanism from the startup settings, or
/// rejects them: an unsatisfiable combination is an error returned before
/// the server starts.
pub fn determine_auth(config: AuthConfig) -> (r: Result<AuthPlan, ConfigurationError>)
    ensures
        r == determine_auth_spec(config),
{
    let AuthConfig {
        client_id,
        client_secret,
        auth_url,
        token_url,
        audience,
        header_name,
        header_value,
        cert,
        cert_file,
        key,
        key_file,
        tls_mode,
    } = config;
    let nothing_given = client_id.is_none() && client_secret.is_none() && auth_url.is_none()
        && token_url.is_none() && audience.is_none() && cert.is_none() && cert_file.is_none()
        && key.is_none() && key_file.is_none();
    if nothing_given {
        return Result::Ok(AuthPlan::NoAuth);
    }
    let oauth_shape = client_id.is_some() && client_secret.is_some() && auth_url.is_some()
        && token_url.is_some();
    let tls_shape = (cert.is_some() && key.is_some()) || (cert_file.is_some()
        && key_file.is_some());
    if oauth_shape && tls_shape {
        return Result::Err(ConfigurationError::InvalidArguments);
    }
    match (client_id, client_secret, auth_url, token_url) {
        (
            Option::Some(client_id),
            Option::Some(client_secret),
            Option::Some(auth_url),
            Option::Some(token_url),
        ) => Result::Ok(
            AuthPlan::OAuth(
                OAuthClientCredentialsOptions {
                    client_id,
                    client_secret,
                    auth_url,
                    token_url,
                    audience,
                    header_name,
                    header_value,
                },
            ),
        ),
        _ => {
            match (cert, key) {
                (Option::Some(cert), Option::Some(key)) => Result::Ok(
                    AuthPlan::TlsInline(cert, key, tls_mode),
                ),
                _ => {
                    match (cert_file, key_file) {
                        (Option::Some(cert_file), Option::Some(key_file)) => Result::Ok(
                            AuthPlan::TlsFromFiles(cert_file, key_file, tls_mode),
                        ),
                        _ => Result::Err(ConfigurationError::InvalidArguments),
                    }
                },
            }
        },
    }
}

} // verus!
