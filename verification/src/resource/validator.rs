//! Validated access tokens and what a validator reports.

use vstd::prelude::*;

use crate::resource::challenge::TokenFailure;
use crate::time::SystemTime;

verus! {

/// The key confirmation claim of a token (`cnf`, RFC 7800).
#[derive(Debug)]
pub struct ConfirmationClaim {
    /// The thumbprint of the DPoP key bound to the token.
    pub jkt: Option<String>,
    /// The SHA-256 thumbprint of the client certificate bound to the token.
    pub x5t_s256: Option<String>,
    /// Encrypted key confirmation.
    pub jwe: Option<serde_json::Value>,
    /// JWK Set URL confirmation.
    pub jku: Option<serde_json::Value>,
}

/// A validated access token.
#[derive(Debug)]
pub struct ValidatedRequest<C> {
    /// The issuer of the token, if present.
    pub issuer: Option<String>,
    /// The subject of the token, if present.
    pub subject: Option<String>,
    /// The audience of the token.
    pub audience: Vec<String>,
    /// The token ID, if present.
    pub jti: Option<String>,
    /// The issued-at timestamp, if present.
    pub issued_at: Option<SystemTime>,
    /// The expiration timestamp, if present.
    pub expiration: Option<SystemTime>,
    /// The key confirmation claim, if present.
    pub cnf: Option<ConfirmationClaim>,
    /// Additional claims beyond the registered token claim set.
    pub claims: C,
    /// Raw introspection JWT (RFC 9701), if the authorization server returned one.
    pub introspection_jwt: Option<String>,
}

/// What a validator reports of a request.
#[derive(Debug)]
pub struct ValidationResult<C> {
    /// The validated token, `None` where there is no token, or why it is
    /// refused.
    pub outcome: Result<Option<ValidatedRequest<C>>, TokenFailure>,
    /// A DPoP nonce to include in the response, if any.
    pub dpop_nonce: Option<String>,
}

/// DER-encoded X.509 client certificate from a mutual TLS connection, for the
/// verification of certificate-bound access tokens.
#[derive(Debug)]
pub struct ClientCertDer(pub Vec<u8>);

} // verus!
