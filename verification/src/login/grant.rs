//! What a completed login brings: tokens and identity claims.

use vstd::prelude::*;

use crate::json::{json_object, member, member_str, string};
use crate::text::opt_text;
use crate::uri::clone_opt;

verus! {

/// A refresh token.
pub struct RefreshToken {
    /// The token as issued.
    pub token: String,
    /// Thumbprint of the DPoP key that the token is bound to.
    pub dpop_jkt: Option<String>,
}

/// An ID token.
pub struct IdToken {
    /// The token as issued.
    pub token: String,
}

impl RefreshToken {
    /// A copy of the token.
    pub fn duplicate(&self) -> (r: Self)
        ensures
            r == *self,
    {
        RefreshToken { token: self.token.clone(), dpop_jkt: clone_opt(&self.dpop_jkt) }
    }
}

impl IdToken {
    /// A copy of the token.
    pub fn duplicate(&self) -> (r: Self)
        ensures
            r == *self,
    {
        IdToken { token: self.token.clone() }
    }
}

/// A copy of an optional refresh token.
pub fn copy_refresh_token(o: &Option<RefreshToken>) -> (r: Option<RefreshToken>)
    ensures
        r == *o,
{
    match o {
        Some(t) => Some(t.duplicate()),
        None => None,
    }
}

/// A copy of an optional ID token.
pub fn copy_id_token(o: &Option<IdToken>) -> (r: Option<IdToken>)
    ensures
        r == *o,
{
    match o {
        Some(t) => Some(t.duplicate()),
        None => None,
    }
}

/// What the token endpoint answered.
pub struct TokenResponse {
    /// The answer as JSON, or why it has no JSON representation.
    pub raw: Result<serde_json::Value, String>,
    /// The refresh token, if one was issued.
    pub refresh_token: Option<RefreshToken>,
    /// The ID token, if one was issued.
    pub id_token: Option<IdToken>,
}

/// Validated identity claims from the ID token.
#[derive(Debug)]
pub struct IdClaims {
    /// Subject identifier: the user at the issuer.
    pub sub: Option<String>,
    /// Session ID (`sid` claim), used for frontchannel and backchannel logout.
    pub sid: Option<String>,
    /// Authentication Context Class Reference.
    pub acr: Option<String>,
    /// Authentication Methods References.
    pub amr: Vec<String>,
    /// Authentication time (Unix timestamp).
    pub auth_time: Option<u64>,
}

/// The result of a successful login.
///
/// Holds the token response and, where the authorization server returned an ID
/// token, the validated identity claims.
pub struct CompletedLogin {
    token_response: TokenResponse,
    id_claims: Option<IdClaims>,
}

impl CompletedLogin {
    /// The token response.
    pub closed spec fn response(&self) -> TokenResponse {
        self.token_response
    }

    /// The identity claims.
    pub closed spec fn claims(&self) -> Option<IdClaims> {
        self.id_claims
    }

    /// A completed login without ID token claims.
    pub fn without_id_claims(token_response: TokenResponse) -> (r: Self)
        ensures
            r.response() == token_response,
            r.claims() is None,
    {
        CompletedLogin { token_response, id_claims: None }
    }

    /// A completed login with validated ID token claims.
    pub fn with_id_claims(token_response: TokenResponse, id_claims: IdClaims) -> (r: Self)
        ensures
            r.response() == token_response,
            r.claims() == Some(id_claims),
    {
        CompletedLogin { token_response, id_claims: Some(id_claims) }
    }

    /// The login that a token response and the claims of a validated ID token
    /// make, where there was one.
    pub fn from_validated(token_response: TokenResponse, id_claims: Option<IdClaims>) -> (r: Self)
        ensures
            r.response() == token_response,
            r.claims() == id_claims,
    {
        match id_claims {
            Some(claims) => Self::with_id_claims(token_response, claims),
            None => Self::without_id_claims(token_response),
        }
    }

    /// Returns the token response.
    pub fn token_response(&self) -> (r: &TokenResponse)
        ensures
            *r == self.response(),
    {
        &self.token_response
    }

    /// Returns the validated ID token claims, if present.
    pub fn id_claims(&self) -> (r: Option<&IdClaims>)
        ensures
            match r {
                Some(c) => self.claims() == Some(*c),
                None => self.claims() is None,
            },
    {
        self.id_claims.as_ref()
    }

    /// Consumes the login, returning the token response and the claims.
    pub fn into_parts(self) -> (r: (TokenResponse, Option<IdClaims>))
        ensures
            r.0 == self.response(),
            r.1 == self.claims(),
    {
        (self.token_response, self.id_claims)
    }
}

impl IdClaims {
    /// The claims of a validated ID token.
    ///
    /// The `sid` claim is no standard claim; it is taken from the extra claims
    /// of the token, where they are an object with a string under `sid`.
    pub fn from_token(
        sub: Option<String>,
        extra: Option<&serde_json::Value>,
        acr: Option<String>,
        amr: Vec<String>,
        auth_time: Option<u64>,
    ) -> (r: Self)
        ensures
            r.sub == sub,
            r.acr == acr,
            r.amr == amr,
            r.auth_time == auth_time,
            opt_text(r.sid) == match extra {
                Some(v) => string(member(json_object(*v), "sid"@)),
                None => None,
            },
    {
        let sid = match extra {
            Some(v) => member_str(v, "sid"),
            None => None,
        };
        IdClaims { sub, sid, acr, amr, auth_time }
    }
}

// ── Laws ─────────────────────────────────────────────────────────────────────

/// A completed login shows the token response and the claims that it was made of.
pub proof fn law_completed_login_shows_its_parts(
    response: TokenResponse,
    claims: Option<IdClaims>,
    login: CompletedLogin,
    shown: &TokenResponse,
    shown_claims: Option<&IdClaims>,
    parts: (TokenResponse, Option<IdClaims>),
)
    requires
        call_ensures(CompletedLogin::from_validated, (response, claims), login)
            || claims is Some && call_ensures(
            CompletedLogin::with_id_claims,
            (response, claims->0),
            login,
        ) || claims is None && call_ensures(
            CompletedLogin::without_id_claims,
            (response,),
            login,
        ),
        call_ensures(CompletedLogin::token_response, (&login,), shown),
        call_ensures(CompletedLogin::id_claims, (&login,), shown_claims),
        call_ensures(CompletedLogin::into_parts, (login,), parts),
    ensures
        *shown == response,
        shown_claims is Some <==> claims is Some,
        claims is Some ==> *shown_claims->0 == claims->0,
        parts.0 == response,
        parts.1 == claims,
{
}

/// The claims of an ID token are kept as they are, each under its own name; the
/// session identifier is the string under `sid` in the extra claims.
pub proof fn law_claims_of_an_id_token(
    sub: Option<String>,
    extra: Option<&serde_json::Value>,
    acr: Option<String>,
    amr: Vec<String>,
    auth_time: Option<u64>,
    r: IdClaims,
)
    requires
        call_ensures(IdClaims::from_token, (sub, extra, acr, amr, auth_time), r),
    ensures
        r.sub == sub,
        r.acr == acr,
        r.amr == amr,
        r.auth_time == auth_time,
        extra is None ==> r.sid is None,
        extra is Some ==> match json_object(*extra->0) {
            Some(m) => if m.dom().contains("sid"@) && m["sid"@] is Str {
                r.sid is Some && r.sid->0@ == m["sid"@]->Str_0
            } else {
                r.sid is None
            },
            None => r.sid is None,
        },
{
}

} // verus!
