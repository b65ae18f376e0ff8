use auth_proxy::auth::{
    authorize_request, complete_authorization, AuthMechanism, AuthStep, IssuedToken,
};
use auth_proxy::config::{determine_auth, AuthConfig, AuthPlan};
use auth_proxy::errors::{response_status_for, ConfigurationError, ProxyError};
use auth_proxy::headers::Headers;
use auth_proxy::oauth::OAuthClientCredentialsOptions;
use auth_proxy::request::{mirror_response, ProxyRequest};
use auth_proxy::routes::{compose_request, construct_url, plan_destination};
use auth_proxy::text::render_template;
use auth_proxy::tls::{TlsMode, TlsOptions, TlsState};

fn oauth_options() -> OAuthClientCredentialsOptions {
    OAuthClientCredentialsOptions {
        client_id: "id".to_string(),
        client_secret: "secret".to_string(),
        auth_url: "http://auth.example".to_string(),
        token_url: "http://token.example".to_string(),
        audience: None,
        header_name: "Authorization".to_string(),
        header_value: "Bearer {}".to_string(),
    }
}

fn empty_request() -> ProxyRequest {
    ProxyRequest {
        method: "GET".to_string(),
        destination: "http://upstream.example".to_string(),
        headers: Headers::new(),
        query: Vec::new(),
        body: Vec::new(),
    }
}

#[test]
fn test_construct_url() {
    assert_eq!(
        construct_url("http://some.endpoint", &vec!["metrics"]),
        "http://some.endpoint/metrics"
    );
    assert_eq!(
        construct_url("http://some.endpoint", &vec!["metrics", "sub", "path"]),
        "http://some.endpoint/metrics/sub/path"
    );
    assert_eq!(
        construct_url("http://some.endpoint/suffix", &vec!["metrics"]),
        "http://some.endpoint/suffix/metrics"
    );
    assert_eq!(
        construct_url(
            "http://some.endpoint/suffix",
            &vec!["metrics", "sub", "path"]
        ),
        "http://some.endpoint/suffix/metrics/sub/path"
    );
}

#[test]
fn test_render_template_substitutes_token() {
    assert_eq!(render_template("Bearer {}", "abc"), "Bearer abc");
    assert_eq!(render_template("{}", "tok"), "tok");
    assert_eq!(render_template("no placeholder", "tok"), "no placeholder");
    assert_eq!(render_template("{{}}", "X"), "{X}");
}

#[test]
fn test_header_insert_overwrites() {
    let mut headers = Headers::new();
    headers.insert("Authorization".to_string(), "Bearer one".to_string());
    headers.insert("X-Other".to_string(), "kept".to_string());
    headers.insert("Authorization".to_string(), "Bearer two".to_string());
    assert_eq!(headers.len(), 2);
    assert_eq!(
        headers.get_value(&"Authorization".to_string()),
        Some("Bearer two".to_string())
    );
    assert_eq!(headers.get_value(&"X-Other".to_string()), Some("kept".to_string()));
    assert_eq!(headers.get_value(&"Missing".to_string()), None);
}

#[test]
fn test_route_gating_rejects_other_paths() {
    let endpoint = "http://some.endpoint".to_string();
    let result = compose_request(
        &endpoint,
        "other",
        "GET".to_string(),
        Headers::new(),
        Vec::new(),
        Vec::new(),
    );
    match result {
        Err(e) => {
            assert_eq!(e, ProxyError::RouteNotFound);
            assert_eq!(response_status_for(&e), 404);
        }
        Ok(_) => panic!("path without the route prefix must not be forwarded"),
    }
    assert!(matches!(
        plan_destination("http://some.endpoint", "metricsx"),
        Err(ProxyError::RouteNotFound)
    ));
    assert!(matches!(
        plan_destination("http://some.endpoint", "metr"),
        Err(ProxyError::RouteNotFound)
    ));
}

#[test]
fn test_plan_destination_edges() {
    assert_eq!(
        plan_destination("http://e", "metrics"),
        Ok("http://e".to_string())
    );
    assert_eq!(
        plan_destination("http://e", "metrics/"),
        Ok("http://e/".to_string())
    );
    assert_eq!(
        plan_destination("http://e/suffix", "metrics/sub"),
        Ok("http://e/suffix/sub".to_string())
    );
    // The endpoint's query string stays in place; segments extend the path.
    assert_eq!(
        plan_destination("http://e/p?q=1", "metrics/m"),
        Ok("http://e/p/m?q=1".to_string())
    );
    // An endpoint that admits no path segments is a request-build failure.
    let err = plan_destination("mailto:me@example.net", "metrics/m").unwrap_err();
    assert_eq!(err, ProxyError::RequestBuild);
    assert_eq!(response_status_for(&err), 500);
}

#[test]
fn test_construct_url_is_url_safe() {
    // The join keeps the base URL's query and percent-encodes segments:
    // URL-safe path-segment concatenation, not text concatenation.
    assert_eq!(
        construct_url("http://e/p?q=1", &vec!["m"]),
        "http://e/p/m?q=1"
    );
    assert_eq!(
        construct_url("http://e", &vec!["100%.png"]),
        "http://e/100%25.png"
    );
}

#[test]
fn test_route_composes_destination() {
    let endpoint = "http://some.endpoint".to_string();
    let bare = compose_request(
        &endpoint,
        "metrics",
        "GET".to_string(),
        Headers::new(),
        Vec::new(),
        Vec::new(),
    )
    .unwrap_or_else(|_| panic!("the bare prefix must be routed"));
    assert_eq!(bare.destination, "http://some.endpoint");
    assert_eq!(bare.method, "GET");

    let nested = compose_request(
        &endpoint,
        "metrics/sub/path",
        "POST".to_string(),
        Headers::new(),
        vec![("k".to_string(), "v".to_string())],
        b"payload".to_vec(),
    )
    .unwrap_or_else(|_| panic!("a prefixed path must be routed"));
    assert_eq!(nested.destination, "http://some.endpoint/sub/path");
    assert_eq!(nested.method, "POST");
    assert_eq!(nested.query, vec![("k".to_string(), "v".to_string())]);
    assert_eq!(nested.body, b"payload".to_vec());
}

#[test]
fn test_none_mechanism_is_noop() {
    let mut mech = AuthMechanism::NoAuth;
    let mut request = empty_request();
    request.headers.insert("X-Keep".to_string(), "as-is".to_string());
    let step = authorize_request(&mut request, &mut mech, 12345);
    assert_eq!(step.unwrap(), AuthStep::Authorized);
    assert_eq!(request.headers.len(), 1);
    assert_eq!(
        request.headers.get_value(&"X-Keep".to_string()),
        Some("as-is".to_string())
    );
}

#[test]
fn test_token_issued_once_and_reused() {
    let mut mech = AuthMechanism::oauth_client_credentials(oauth_options());
    let mut request = empty_request();

    // No token cached yet: the first authorization asks for one issuance.
    let step = authorize_request(&mut request, &mut mech, 1000).unwrap();
    assert_eq!(step, AuthStep::TokenNeeded);
    assert_eq!(request.headers.len(), 0);

    // The issued token is stored and written into the header.
    let outcome = Some(IssuedToken {
        access_token: "abc".to_string(),
        expires_in: Some(100),
    });
    complete_authorization(&mut request, &mut mech, 1000, outcome).unwrap();
    assert_eq!(
        request.headers.get_value(&"Authorization".to_string()),
        Some("Bearer abc".to_string())
    );

    // Strictly before the expiry the cached token is reused: no issuance,
    // and the header is overwritten, not duplicated.
    let mut second = empty_request();
    second.headers.insert("Authorization".to_string(), "stale".to_string());
    let step = authorize_request(&mut second, &mut mech, 1099).unwrap();
    assert_eq!(step, AuthStep::Authorized);
    assert_eq!(second.headers.len(), 1);
    assert_eq!(
        second.headers.get_value(&"Authorization".to_string()),
        Some("Bearer abc".to_string())
    );

    // At the expiry instant the token counts as expired: issuance again.
    let mut third = empty_request();
    let step = authorize_request(&mut third, &mut mech, 1100).unwrap();
    assert_eq!(step, AuthStep::TokenNeeded);
}

#[test]
fn test_default_expiry_is_one_hour() {
    let mut mech = AuthMechanism::oauth_client_credentials(oauth_options());
    let mut request = empty_request();
    assert_eq!(
        authorize_request(&mut request, &mut mech, 1000).unwrap(),
        AuthStep::TokenNeeded
    );
    let outcome = Some(IssuedToken {
        access_token: "abc".to_string(),
        expires_in: None,
    });
    complete_authorization(&mut request, &mut mech, 1000, outcome).unwrap();
    match &mech {
        AuthMechanism::OAuthClientCredentials(state) => {
            let cached = state.token.as_ref().expect("a token must be cached");
            assert_eq!(cached.expires_at, 1000 + 3600);
            assert!(!state.needs_issuance(4599));
            assert!(state.needs_issuance(4600));
            assert_eq!(state.current_token(4599), Some("abc".to_string()));
            assert_eq!(state.current_token(4600), None);
        }
        _ => panic!("the mechanism must still be the OAuth variant"),
    }
    let mut later = empty_request();
    assert_eq!(
        authorize_request(&mut later, &mut mech, 4599).unwrap(),
        AuthStep::Authorized
    );
    let mut expired = empty_request();
    assert_eq!(
        authorize_request(&mut expired, &mut mech, 4600).unwrap(),
        AuthStep::TokenNeeded
    );
}

#[test]
fn test_failed_issuance_keeps_previous_token() {
    let mut mech = AuthMechanism::oauth_client_credentials(oauth_options());
    let mut request = empty_request();
    assert_eq!(
        authorize_request(&mut request, &mut mech, 1000).unwrap(),
        AuthStep::TokenNeeded
    );
    let outcome = Some(IssuedToken {
        access_token: "abc".to_string(),
        expires_in: Some(100),
    });
    complete_authorization(&mut request, &mut mech, 1000, outcome).unwrap();

    // The token has expired; the refresh attempt fails: the error surfaces
    // and the previously cached token is left untouched.
    let mut retry = empty_request();
    assert_eq!(
        authorize_request(&mut retry, &mut mech, 1100).unwrap(),
        AuthStep::TokenNeeded
    );
    let err = complete_authorization(&mut retry, &mut mech, 1100, None).unwrap_err();
    assert_eq!(err, ProxyError::Issuance);
    assert_eq!(response_status_for(&err), 500);
    assert_eq!(retry.headers.len(), 0);
    match &mech {
        AuthMechanism::OAuthClientCredentials(state) => {
            let cached = state.token.as_ref().expect("the old token must remain");
            assert_eq!(cached.token, "abc");
            assert_eq!(cached.expires_at, 1100);
        }
        _ => panic!("the mechanism must still be the OAuth variant"),
    }
}

#[test]
fn test_invalid_header_name_is_rejected() {
    let mut options = oauth_options();
    options.header_name = "bad name".to_string();
    let mut mech = AuthMechanism::oauth_client_credentials(options);
    let mut request = empty_request();
    assert_eq!(
        authorize_request(&mut request, &mut mech, 1000).unwrap(),
        AuthStep::TokenNeeded
    );
    let outcome = Some(IssuedToken {
        access_token: "abc".to_string(),
        expires_in: Some(100),
    });
    let err = complete_authorization(&mut request, &mut mech, 1000, outcome).unwrap_err();
    assert_eq!(err, ProxyError::InvalidHeaderName);
    assert_eq!(request.headers.len(), 0);
}

#[test]
fn test_invalid_header_value_is_rejected() {
    let mut mech = AuthMechanism::oauth_client_credentials(oauth_options());
    let mut request = empty_request();
    assert_eq!(
        authorize_request(&mut request, &mut mech, 1000).unwrap(),
        AuthStep::TokenNeeded
    );
    let outcome = Some(IssuedToken {
        access_token: "a\nb".to_string(),
        expires_in: Some(100),
    });
    let err = complete_authorization(&mut request, &mut mech, 1000, outcome).unwrap_err();
    assert_eq!(err, ProxyError::InvalidHeaderValue);
    assert_eq!(request.headers.len(), 0);
}

#[test]
fn test_tls_forward_headers_mode() {
    let state = TlsState::new(TlsOptions {
        cert: "CERT-TEXT".to_string(),
        key: "KEY-TEXT".to_string(),
        mode: TlsMode::ForwardHeaders,
    });
    let mut headers = Headers::new();
    state.authorize(&mut headers).unwrap();
    assert_eq!(
        headers.get_value(&"X-Forwarded-Client-Cert".to_string()),
        Some("CERT-TEXT".to_string())
    );
    assert_eq!(
        headers.get_value(&"X-Forwarded-Client-Key".to_string()),
        Some("KEY-TEXT".to_string())
    );
    assert_eq!(headers.len(), 2);
}

#[test]
fn test_tls_forward_rejects_invalid_value() {
    let state = TlsState::new(TlsOptions {
        cert: "line one\nline two".to_string(),
        key: "KEY-TEXT".to_string(),
        mode: TlsMode::ForwardHeaders,
    });
    let mut headers = Headers::new();
    let err = state.authorize(&mut headers).unwrap_err();
    assert_eq!(err, ProxyError::InvalidHeaderValue);
    assert_eq!(headers.len(), 0);
}

#[test]
fn test_tls_transport_identity_is_noop_per_request() {
    let mut mech = AuthMechanism::tls(TlsOptions {
        cert: "CERT-TEXT".to_string(),
        key: "KEY-TEXT".to_string(),
        mode: TlsMode::TransportIdentity,
    });
    let mut request = empty_request();
    assert_eq!(
        authorize_request(&mut request, &mut mech, 1000).unwrap(),
        AuthStep::Authorized
    );
    assert_eq!(request.headers.len(), 0);
}

#[test]
fn test_identity_rejects_malformed_material() {
    let state = TlsState::new(TlsOptions {
        cert: "not a certificate".to_string(),
        key: "not a key".to_string(),
        mode: TlsMode::TransportIdentity,
    });
    let err = state.identity().unwrap_err();
    assert_eq!(err, ConfigurationError::InvalidIdentityMaterial);
}

#[test]
fn test_upstream_mirroring() {
    let response = mirror_response(503, b"boom".to_vec());
    assert_eq!(response.status, 503);
    assert_eq!(response.body, b"boom".to_vec());
}

#[test]
fn test_response_status_codes() {
    assert_eq!(response_status_for(&ProxyError::RouteNotFound), 404);
    assert_eq!(response_status_for(&ProxyError::InvalidHeaderName), 500);
    assert_eq!(response_status_for(&ProxyError::InvalidHeaderValue), 500);
    assert_eq!(response_status_for(&ProxyError::Issuance), 500);
    assert_eq!(response_status_for(&ProxyError::UpstreamTransport), 500);
}

fn empty_config() -> AuthConfig {
    AuthConfig {
        client_id: None,
        client_secret: None,
        auth_url: None,
        token_url: None,
        audience: None,
        header_name: "Authorization".to_string(),
        header_value: "Bearer {}".to_string(),
        cert: None,
        cert_file: None,
        key: None,
        key_file: None,
        tls_mode: TlsMode::TransportIdentity,
    }
}

#[test]
fn test_determine_auth_nothing_given() {
    assert!(matches!(determine_auth(empty_config()), Ok(AuthPlan::NoAuth)));
}

#[test]
fn test_determine_auth_oauth() {
    let mut config = empty_config();
    config.client_id = Some("id".to_string());
    config.client_secret = Some("secret".to_string());
    config.auth_url = Some("http://auth.example".to_string());
    config.token_url = Some("http://token.example".to_string());
    match determine_auth(config) {
        Ok(AuthPlan::OAuth(options)) => {
            assert_eq!(options.client_id, "id");
            assert_eq!(options.client_secret, "secret");
            assert_eq!(options.auth_url, "http://auth.example");
            assert_eq!(options.token_url, "http://token.example");
            assert_eq!(options.audience, None);
            assert_eq!(options.header_name, "Authorization");
            assert_eq!(options.header_value, "Bearer {}");
        }
        _ => panic!("full OAuth settings must select the OAuth plan"),
    }
}

#[test]
fn test_determine_auth_tls_inline_and_files() {
    let mut config = empty_config();
    config.cert = Some("CERT".to_string());
    config.key = Some("KEY".to_string());
    match determine_auth(config) {
        Ok(AuthPlan::TlsInline(cert, key, mode)) => {
            assert_eq!(cert, "CERT");
            assert_eq!(key, "KEY");
            assert_eq!(mode, TlsMode::TransportIdentity);
        }
        _ => panic!("inline TLS material must select the inline TLS plan"),
    }

    let mut config = empty_config();
    config.cert_file = Some("/etc/tls/cert.pem".to_string());
    config.key_file = Some("/etc/tls/key.pem".to_string());
    match determine_auth(config) {
        Ok(AuthPlan::TlsFromFiles(cert_file, key_file, _)) => {
            assert_eq!(cert_file, "/etc/tls/cert.pem");
            assert_eq!(key_file, "/etc/tls/key.pem");
        }
        _ => panic!("TLS file paths must select the file-based TLS plan"),
    }
}

#[test]
fn test_determine_auth_rejects_partial_settings() {
    let mut config = empty_config();
    config.client_id = Some("id".to_string());
    match determine_auth(config) {
        Err(e) => assert_eq!(e, ConfigurationError::InvalidArguments),
        Ok(_) => panic!("a lone client id satisfies no accepted shape"),
    }

    // An incomplete OAuth shape falls through to the TLS shapes, as the
    // startup decision tries them in order.
    let mut config = empty_config();
    config.client_id = Some("id".to_string());
    config.cert = Some("CERT".to_string());
    config.key = Some("KEY".to_string());
    assert!(matches!(
        determine_auth(config),
        Ok(AuthPlan::TlsInline(_, _, _))
    ));
}

#[test]
fn test_header_names_match_case_insensitively() {
    let mut headers = Headers::new();
    headers.insert("authorization".to_string(), "stale".to_string());
    headers.insert("Authorization".to_string(), "Bearer abc".to_string());
    assert_eq!(headers.len(), 1);
    assert_eq!(
        headers.get_value(&"AUTHORIZATION".to_string()),
        Some("Bearer abc".to_string())
    );
}

#[test]
fn test_header_append_keeps_duplicates() {
    let mut headers = Headers::new();
    headers.append("Via".to_string(), "proxy-a".to_string());
    headers.append("via".to_string(), "proxy-b".to_string());
    assert_eq!(headers.len(), 2);
    // The last appended value is the one looked up; both pairs survive.
    assert_eq!(
        headers.get_value(&"Via".to_string()),
        Some("proxy-b".to_string())
    );
    headers.insert("Via".to_string(), "only".to_string());
    assert_eq!(headers.len(), 1);
}

#[test]
fn test_determine_auth_rejects_ambiguous_settings() {
    let mut config = empty_config();
    config.client_id = Some("id".to_string());
    config.client_secret = Some("secret".to_string());
    config.auth_url = Some("http://auth.example".to_string());
    config.token_url = Some("http://token.example".to_string());
    config.cert = Some("CERT".to_string());
    config.key = Some("KEY".to_string());
    match determine_auth(config) {
        Err(e) => assert_eq!(e, ConfigurationError::InvalidArguments),
        Ok(_) => panic!("settings satisfying two credential shapes are ambiguous"),
    }
}

#[test]
fn test_extra_token_params_carry_audience_iff_configured() {
    let mut options = oauth_options();
    options.audience = Some("https://aud.example".to_string());
    match AuthMechanism::oauth_client_credentials(options) {
        AuthMechanism::OAuthClientCredentials(state) => {
            assert_eq!(
                state.extra_token_params(),
                vec![("audience".to_string(), "https://aud.example".to_string())]
            );
        }
        _ => panic!("the mechanism must be the OAuth variant"),
    }
    match AuthMechanism::oauth_client_credentials(oauth_options()) {
        AuthMechanism::OAuthClientCredentials(state) => {
            assert_eq!(state.extra_token_params(), Vec::new());
        }
        _ => panic!("the mechanism must be the OAuth variant"),
    }
}
