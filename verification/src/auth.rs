//! The authorization mechanism: a closed set of variants selected once at
//! startup, exposing one operation that attaches credentials to an outbound
//! request.
//!
//! OAuth token issuance is a network exchange performed by the caller, so
//! authorization is a two-step protocol: [`authorize_request`] either
//! finishes on its own or answers [`AuthStep::TokenNeeded`], and the caller
//! then performs exactly one issuance exchange and hands its result to
//! [`complete_authorization`].  The caller serializes the two steps per
//! mechanism (the surrounding binary holds one lock across them), which
//! keeps at most one issuance in flight.

use vstd::prelude::*;
use crate::errors::ProxyError;
use crate::headers::{header_insert, Headers};
use crate::oauth::{effective_expires_in, OAuthClientCredentialsState};
use crate::request::ProxyRequest;
use crate::text::{check_header_name, check_header_value, render_spec, render_template, valid_header_name, valid_header_value};
use crate::tls::{TlsMode, TlsState};

pub use crate::oauth::OAuthClientCredentialsOptions;
pub use crate::tls::TlsOptions;

verus! {

/// The credential mechanism active for the lifetime of the process.
pub enum AuthMechanism {
    NoAuth,
    OAuthClientCredentials(OAuthClientCredentialsState),
    Tls(TlsState),
}

/// What a first authorization step decided.
#[derive(Clone, Copy, Debug, PartialEq, Eq, Structural)]
pub enum AuthStep {
    /// The request carries whatever credentials the mechanism attaches;
    /// nothing more is needed.
    Authorized,
    /// A fresh bearer token must be issued; the caller performs the
    /// exchange and hands the result to `complete_authorization`.
    TokenNeeded,
}

/// What one token-issuance exchange returned: the access token and the
/// lifetime, in seconds, that the response carried, if any.
pub struct IssuedToken {
    pub access_token: String,
    pub expires_in: Option<u64>,
}

impl AuthMechanism {
    /// The OAuth2 client-credentials mechanism, with nothing cached yet.
    pub fn oauth_client_credentials(options: OAuthClientCredentialsOptions) -> (m: AuthMechanism)
        ensures
            m matches AuthMechanism::OAuthClientCredentials(s) && ({
                &&& s.client_id == options.client_id
                &&& s.client_secret == options.client_secret
                &&& s.auth_url == options.auth_url
                &&& s.token_url == options.token_url
                &&& s.audience == options.audience
                &&& s.header_name == options.header_name
                &&& s.header_value == options.header_value
                &&& s.token is None
            }),
    {
        AuthMechanism::OAuthClientCredentials(OAuthClientCredentialsState::new(options))
    }

    /// The TLS client-certificate mechanism.
    pub fn tls(options: TlsOptions) -> (m: AuthMechanism)
        ensures
            m matches AuthMechanism::Tls(s) && ({
                &&& s.cert == options.cert
                &&& s.key == options.key
                &&& s.mode == options.mode
            }),
    {
        AuthMechanism::Tls(TlsState::new(options))
    }
}

/// Validates the header name, renders the value template with the token and
/// validates the rendering, then sets the header; on an invalid name or
/// value nothing is changed.
fn apply_header(headers: &mut Headers, name: &String, template: &String, token: &String) -> (r:
    Result<(), ProxyError>)
    ensures
        valid_header_name(name@) && valid_header_value(render_spec(template@, token@)) ==> r is Ok
            && final(headers)@ == header_insert(
            old(headers)@,
            name@,
            render_spec(template@, token@),
        ),
        !valid_header_name(name@) ==> r == Result::<(), ProxyError>::Err(
            ProxyError::InvalidHeaderName,
        ) && *final(headers) == *old(headers),
        valid_header_name(name@) && !valid_header_value(render_spec(template@, token@)) ==> r
            == Result::<(), ProxyError>::Err(ProxyError::InvalidHeaderValue)
            && *final(headers) == *old(headers),
{
    if !check_header_name(name.as_str()) {
        return Result::Err(ProxyError::InvalidHeaderName);
    }
    let value = render_template(template.as_str(), token.as_str());
    if !check_header_value(value.as_str()) {
        return Result::Err(ProxyError::InvalidHeaderValue);
    }
    headers.insert(name.clone(), value);
    Result::Ok(())
}

/// First authorization step, dispatched on the active mechanism: no
/// mechanism and transport-identity TLS change nothing; header-forwarding
/// TLS injects the two identity headers; OAuth sets the configured header
/// from the cached token when that token is still valid, and otherwise asks
/// the caller for a fresh one.  The mechanism's state is never changed
/// here, and on any error the request is unchanged.
pub fn authorize_request(request: &mut ProxyRequest, auth: &mut AuthMechanism, now: u64) -> (r:
    Result<AuthStep, ProxyError>)
    ensures
        *final(auth) == *old(auth),
        final(request).same_except_headers(old(request)),
        (*old(auth)) matches AuthMechanism::NoAuth ==> r == Result::<AuthStep, ProxyError>::Ok(
            AuthStep::Authorized,
        ) && *final(request) == *old(request),
        (*old(auth)) matches AuthMechanism::OAuthClientCredentials(s) ==> {
            &&& !s.token_valid_at(now) ==> r == Result::<AuthStep, ProxyError>::Ok(
                AuthStep::TokenNeeded,
            ) && *final(request) == *old(request)
            &&& s.token_valid_at(now) ==> ({
                let value = render_spec(s.header_value@, s.token->0.token@);
                &&& valid_header_name(s.header_name@) && valid_header_value(value) ==> r
                    == Result::<AuthStep, ProxyError>::Ok(AuthStep::Authorized)
                    && final(request).headers@ == header_insert(
                    old(request).headers@,
                    s.header_name@,
                    value,
                )
                &&& !valid_header_name(s.header_name@) ==> r == Result::<
                    AuthStep,
                    ProxyError,
                >::Err(ProxyError::InvalidHeaderName) && *final(request) == *old(request)
                &&& valid_header_name(s.header_name@) && !valid_header_value(value) ==> r
                    == Result::<AuthStep, ProxyError>::Err(ProxyError::InvalidHeaderValue)
                    && *final(request) == *old(request)
            })
        },
        (*old(auth)) matches AuthMechanism::Tls(s) ==> {
            &&& s.mode == TlsMode::TransportIdentity ==> r == Result::<AuthStep, ProxyError>::Ok(
                AuthStep::Authorized,
            ) && *final(request) == *old(request)
            &&& s.mode == TlsMode::ForwardHeaders && valid_header_value(s.cert@)
                && valid_header_value(s.key@) ==> r == Result::<AuthStep, ProxyError>::Ok(
                AuthStep::Authorized,
            ) && final(request).headers@ == header_insert(
                header_insert(old(request).headers@, "X-Forwarded-Client-Cert"@, s.cert@),
                "X-Forwarded-Client-Key"@,
                s.key@,
            )
            &&& s.mode == TlsMode::ForwardHeaders && !(valid_header_value(s.cert@)
                && valid_header_value(s.key@)) ==> r == Result::<AuthStep, ProxyError>::Err(
                ProxyError::InvalidHeaderValue,
            ) && *final(request) == *old(request)
        },
{
    match auth {
        AuthMechanism::NoAuth => Result::Ok(AuthStep::Authorized),
        AuthMechanism::OAuthClientCredentials(state) => {
            match state.current_token(now) {
                Option::Some(token) => {
                    match apply_header(
                        &mut request.headers,
                        &state.header_name,
                        &state.header_value,
                        &token,
                    ) {
                        Result::Ok(()) => Result::Ok(AuthStep::Authorized),
                        Result::Err(e) => Result::Err(e),
                    }
                },
                Option::None => Result::Ok(AuthStep::TokenNeeded),
            }
        },
        AuthMechanism::Tls(state) => {
            match state.authorize(&mut request.headers) {
                Result::Ok(()) => Result::Ok(AuthStep::Authorized),
                Result::Err(e) => Result::Err(e),
            }
        },
    }
}

/// Second authorization step, after the caller's one issuance exchange.  A
/// failed exchange leaves the cached token and the request exactly as they
/// were and surfaces the issuance error.  A successful one replaces the
/// cached token — expiry `now` plus the granted lifetime — and then sets
/// the configured header from it; an invalid header name or rendered value
/// is an error for this request, though the fresh token stays cached.
pub fn complete_authorization(
    request: &mut ProxyRequest,
    auth: &mut AuthMechanism,
    now: u64,
    outcome: Option<IssuedToken>,
) -> (r: Result<(), ProxyError>)
    requires
        (*old(auth)) is OAuthClientCredentials,
        outcome matches Option::Some(tok) ==> now + effective_expires_in(tok.expires_in)
            <= u64::MAX,
    ensures
        final(request).same_except_headers(old(request)),
        outcome is None ==> r == Result::<(), ProxyError>::Err(ProxyError::Issuance)
            && *final(auth) == *old(auth) && *final(request) == *old(request),
        (*old(auth)) matches AuthMechanism::OAuthClientCredentials(s0) ==> (outcome
            matches Option::Some(tok) ==> {
            &&& (*final(auth)) matches AuthMechanism::OAuthClientCredentials(s1) && ({
                &&& s1.same_config(&s0)
                &&& s1.token matches Option::Some(cached) && cached.token == tok.access_token
                    && cached.expires_at == now + effective_expires_in(tok.expires_in)
                &&& ({
                    let value = render_spec(s0.header_value@, tok.access_token@);
                    &&& valid_header_name(s0.header_name@) && valid_header_value(value) ==> r
                        is Ok && final(request).headers@ == header_insert(
                        old(request).headers@,
                        s0.header_name@,
                        value,
                    )
                    &&& !valid_header_name(s0.header_name@) ==> r == Result::<
                        (),
                        ProxyError,
                    >::Err(ProxyError::InvalidHeaderName) && *final(request) == *old(request)
                    &&& valid_header_name(s0.header_name@) && !valid_header_value(value) ==> r
                        == Result::<(), ProxyError>::Err(ProxyError::InvalidHeaderValue)
                        && *final(request) == *old(request)
                })
            })
        }),
{
    match auth {
        AuthMechanism::OAuthClientCredentials(state) => {
            match outcome {
                Option::Some(tok) => {
                    state.store_token(now, tok.access_token, tok.expires_in);
                    match &state.token {
                        Option::Some(cached) => {
                            match apply_header(
                                &mut request.headers,
                                &state.header_name,
                                &state.header_value,
                                &cached.token,
                            ) {
                                Result::Ok(()) => Result::Ok(()),
                                Result::Err(e) => Result::Err(e),
                            }
                        },
                        Option::None => {
                            proof {
                                assert(false);
                            }
                            Result::Err(ProxyError::Issuance)
                        },
                    }
                },
                Option::None => Result::Err(ProxyError::Issuance),
            }
        },
        _ => {
            proof {
                assert(false);
            }
            Result::Err(ProxyError::Issuance)
        },
    }
}

} // verus!
