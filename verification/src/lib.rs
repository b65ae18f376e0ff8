//! A request-authorization layer for an HTTP forwarding proxy.
//!
//! The library decides, for every outbound request, which credentials to
//! attach: none, a bearer token obtained through an OAuth2 client-credentials
//! flow, or a mutual-TLS identity.  All decision logic — route gating, URL
//! composition, header rendering and insertion, token caching and expiry —
//! lives here with verified contracts; the surrounding binary performs the
//! network calls and hands their results back as plain values.

pub mod auth;
pub mod config;
pub mod errors;
pub mod headers;
pub mod oauth;
pub mod request;
pub mod routes;
pub mod text;
pub mod tls;
