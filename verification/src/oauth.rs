//! State for the OAuth2 client-credentials mechanism: the endpoint
//! configuration, the header-injection template, and the single cached
//! bearer token with its expiry instant.
//!
//! The token-issuance network exchange itself is performed by the caller;
//! this module decides *when* a new token is needed and stores the issued
//! result, so the cache protocol — reuse strictly before expiry, replace at
//! or after it, keep the old token on a failed issuance — is verified here.

use vstd::prelude::*;

verus! {

/// The token lifetime, in seconds, assumed when the issuer's response names
/// none.
pub const DEFAULT_EXPIRES_IN_SECS: u64 = 3600;

/// The lifetime granted by an issuance response: the `expires_in` it carried,
/// or the default when it carried none.
pub open spec fn effective_expires_in(expires_in: Option<u64>) -> u64 {
    match expires_in {
        Option::Some(secs) => secs,
        Option::None => DEFAULT_EXPIRES_IN_SECS,
    }
}

/// Settings for the OAuth2 client-credentials flow.
pub struct OAuthClientCredentialsOptions {
    // Used to generate the token
    pub client_id: String,
    pub client_secret: String,
    pub auth_url: String,
    pub token_url: String,
    pub audience: Option<String>,
    // Used to authenticate the request
    pub header_name: String,
    pub header_value: String,
}

/// A bearer token together with the absolute instant (seconds on the wall
/// clock) at which it stops being usable.
pub struct CachedToken {
    pub token: String,
    pub expires_at: u64,
}

/// The OAuth2 client-credentials mechanism: immutable configuration plus the
/// one cached token, replaced wholesale when it expires.
pub struct OAuthClientCredentialsState {
    // Used to generate the token
    pub client_id: String,
    pub client_secret: String,
    pub auth_url: String,
    pub token_url: String,
    pub audience: Option<String>,
    // Used to authenticate the request
    pub header_name: String,
    pub header_value: String,
    // Cached token
    pub token: Option<CachedToken>,
}

impl OAuthClientCredentialsState {
    /// A cached token is usable at `now` iff it exists and `now` is strictly
    /// before its expiry.
    pub open spec fn token_valid_at(&self, now: u64) -> bool {
        match self.token {
            Option::Some(cached) => now < cached.expires_at,
            Option::None => false,
        }
    }

    /// Both states carry the same configuration; only the cached token may
    /// differ.
    pub open spec fn same_config(&self, other: &Self) -> bool {
        &&& self.client_id == other.client_id
        &&& self.client_secret == other.client_secret
        &&& self.auth_url == other.auth_url
        &&& self.token_url == other.token_url
        &&& self.audience == other.audience
        &&& self.header_name == other.header_name
        &&& self.header_value == other.header_value
    }

    /// Builds the state from its settings, with no token cached yet.
    pub fn new(options: OAuthClientCredentialsOptions) -> (s: Self)
        ensures
            s.client_id == options.client_id,
            s.client_secret == options.client_secret,
            s.auth_url == options.auth_url,
            s.token_url == options.token_url,
            s.audience == options.audience,
            s.header_name == options.header_name,
            s.header_value == options.header_value,
            s.token is None,
    {
        Self {
            client_id: options.client_id,
            client_secret: options.client_secret,
            auth_url: options.auth_url,
            token_url: options.token_url,
            audience: options.audience,
            header_name: options.header_name,
            header_value: options.header_value,
            token: Option::None,
        }
    }

    /// The extra parameters the token-issuance request carries: the
    /// `audience` parameter exactly when an audience is configured, and
    /// nothing else.
    pub fn extra_token_params(&self) -> (params: Vec<(String, String)>)
        ensures
            match self.audience {
                Option::Some(audience) => params@.len() == 1 && params@[0].0@ == "audience"@
                    && params@[0].1@ == audience@,
                Option::None => params@.len() == 0,
            },
    {
        let mut params: Vec<(String, String)> = Vec::new();
        match &self.audience {
            Option::Some(audience) => {
                params.push((String::from_str("audience"), audience.clone()));
            },
            Option::None => {},
        }
        params
    }

    /// Whether an authorization at `now` must first obtain a fresh token.
    pub fn needs_issuance(&self, now: u64) -> (needed: bool)
        ensures
            needed == !self.token_valid_at(now),
    {
        match &self.token {
            Option::Some(cached) => !(now < cached.expires_at),
            Option::None => true,
        }
    }

    /// The cached token, if it is still usable at `now`.
    pub fn current_token(&self, now: u64) -> (r: Option<String>)
        ensures
            match r {
                Option::Some(token) => self.token_valid_at(now) && (self.token
                    matches Option::Some(cached) && token@ == cached.token@),
                Option::None => !self.token_valid_at(now),
            },
    {
        match &self.token {
            Option::Some(cached) => if now < cached.expires_at {
                Option::Some(cached.token.clone())
            } else {
                Option::None
            },
            Option::None => Option::None,
        }
    }

    /// Replaces the cache with a token issued at `now`: its expiry is
    /// `now` plus the granted lifetime, the default lifetime when the
    /// issuance response named none.  The configuration is untouched.
    pub fn store_token(&mut self, now: u64, access_token: String, expires_in: Option<u64>)
        requires
            now + effective_expires_in(expires_in) <= u64::MAX,
        ensures
            final(self).same_config(old(self)),
            final(self).token matches Option::Some(cached) && cached.token == access_token
                && cached.expires_at == now + effective_expires_in(expires_in),
            expires_in is None ==> final(self).token->0.expires_at == now
                + DEFAULT_EXPIRES_IN_SECS,
    {
        let lifetime = match expires_in {
            Option::Some(secs) => secs,
            Option::None => DEFAULT_EXPIRES_IN_SECS,
        };
        self.token = Option::Some(
            CachedToken { token: access_token, expires_at: now + lifetime },
        );
    }
}

/// Token reuse: a cached token whose expiry is the instant `expiry` is
/// reused by any authorization strictly before `expiry` — no new issuance —
/// and rejected, forcing exactly one new issuance, at or after it.
pub proof fn lemma_token_reuse(s: OAuthClientCredentialsState, t: u64)
    requires
        s.token is Some,
    ensures
        s.token_valid_at(t) <==> t < s.token->0.expires_at,
{
}

/// Single issuance under serialized authorization: from a state without a
/// usable token every caller is told to issue; once one issuance result is
/// stored, a caller at any instant from the issuance up to (but excluding)
/// the expiry reuses the stored token, so no second issuance happens.
pub proof fn lemma_single_issuance(
    s0: OAuthClientCredentialsState,
    s1: OAuthClientCredentialsState,
    now: u64,
    expires_in: Option<u64>,
    t: u64,
)
    requires
        !s0.token_valid_at(now),
        s1.same_config(&s0),
        s1.token is Some,
        s1.token->0.expires_at == now + effective_expires_in(expires_in),
        now <= t < now + effective_expires_in(expires_in),
    ensures
        s1.token_valid_at(t),
{
}

} // verus!
