//! `WWW-Authenticate` challenges (RFC 6750, RFC 9449).

use huskarl_resource_server::error::{
    ChallengeParam, ToRfc6750Error, TokenErrorCode, TokenValidationError,
};
use huskarl_resource_server::validator::extract::TokenType;
use huskarl_resource_server::validator::metadata::ValidatorMetadata;
use vstd::prelude::*;

use crate::json::{json_object, Json};
use crate::text::{opt_str, opt_text, texts};

verus! {

// ── Failures ─────────────────────────────────────────────────────────────────

/// The scheme used to present an access token.
#[derive(Debug, Clone, Copy, PartialEq, Eq, Structural)]
pub enum TokenScheme {
    /// A Bearer token, as defined in RFC 6750.
    Bearer,
    /// A DPoP-bound token, as defined in RFC 9449.
    DPoP,
}

/// RFC 6750 §3.1 error codes for resource server responses.
#[derive(Debug, Clone, Copy, PartialEq, Eq, Structural)]
pub enum FailureCode {
    /// The request is malformed.
    InvalidRequest,
    /// The access token is invalid, expired, or revoked.
    InvalidToken,
    /// The token has insufficient scope for the requested resource.
    InsufficientScope,
    /// The DPoP proof is invalid.
    InvalidDPoPProof,
    /// A DPoP nonce is required.
    UseDPoPNonce,
    /// The token was obtained with insufficient user authentication strength.
    InsufficientUserAuthentication,
}

/// Classifies a token validation failure.
#[derive(Debug, Clone, Copy, PartialEq, Eq, Structural)]
pub enum FailureClass {
    /// A problem with the client's token or request.
    Client(FailureCode),
    /// A failure on the side of the server, with the status to answer with.
    Server(u16),
}

impl FailureClass {
    /// The status to answer with: 400 for a malformed request, 403 for
    /// insufficient scope, 401 for any other fault of the token, and the given
    /// status for a failure of the server.
    pub open spec fn status(self) -> u16 {
        match self {
            FailureClass::Client(FailureCode::InvalidRequest) => 400,
            FailureClass::Client(FailureCode::InsufficientScope) => 403,
            FailureClass::Client(_) => 401,
            FailureClass::Server(status) => status,
        }
    }

    /// The status to answer with.
    pub fn suggested_status(&self) -> (r: u16)
        ensures
            r == self.status(),
    {
        match self {
            FailureClass::Client(code) => match code {
                FailureCode::InvalidRequest => 400,
                FailureCode::InsufficientScope => 403,
                _ => 401,
            },
            FailureClass::Server(status) => *status,
        }
    }
}

/// A parameter of a challenge.
#[derive(Debug)]
pub enum FailureParam {
    /// A quoted-string parameter: `key="value"`.
    Quoted(&'static str, String),
    /// An unquoted token parameter: `key=value`.
    Token(&'static str, String),
}

/// Why a token is refused.
#[derive(Debug)]
pub struct TokenFailure {
    /// The scheme that the client attempted, if known.
    pub scheme: Option<TokenScheme>,
    /// The classification of the failure.
    pub error: FailureClass,
    /// A human-readable description.
    pub description: Option<String>,
    /// Further parameters of the challenge.
    pub params: Vec<FailureParam>,
}

/// The model of a challenge parameter: whether it is quoted, its key and its
/// value.
pub open spec fn param_view(p: FailureParam) -> (bool, Seq<char>, Seq<char>) {
    match p {
        FailureParam::Quoted(key, value) => (true, key@, value@),
        FailureParam::Token(key, value) => (false, key@, value@),
    }
}

/// The model of a [`TokenFailure`].
pub struct FailureView {
    pub scheme: Option<TokenScheme>,
    pub error: FailureClass,
    pub description: Option<Seq<char>>,
    pub params: Seq<(bool, Seq<char>, Seq<char>)>,
}

impl View for TokenFailure {
    type V = FailureView;

    open spec fn view(&self) -> FailureView {
        FailureView {
            scheme: self.scheme,
            error: self.error,
            description: opt_text(self.description),
            params: self.params@.map_values(|p: FailureParam| param_view(p)),
        }
    }
}

/// The view of an optional failure.
pub open spec fn opt_failure(f: Option<&TokenFailure>) -> Option<FailureView> {
    match f {
        Some(x) => Some(x@),
        None => None,
    }
}

impl FailureView {
    /// A failure of the client's token or request, with a description.
    pub open spec fn client(code: FailureCode, description: Seq<char>) -> FailureView {
        FailureView {
            scheme: None,
            error: FailureClass::Client(code),
            description: Some(description),
            params: Seq::empty(),
        }
    }
}

impl TokenFailure {
    /// A failure of the client's token or request, with a description.
    pub fn client(code: FailureCode, description: String) -> (r: Self)
        ensures
            r@ == FailureView::client(code, description@),
    {
        let params: Vec<FailureParam> = Vec::new();
        let r = TokenFailure {
            scheme: None,
            error: FailureClass::Client(code),
            description: Some(description),
            params,
        };
        assert(r@.params == Seq::<(bool, Seq<char>, Seq<char>)>::empty());
        r
    }
}

// ── Metadata ─────────────────────────────────────────────────────────────────

/// How an access token validator is configured: the input to challenges and to
/// a protected resource metadata document (RFC 9728).
#[derive(Debug)]
pub struct ResourceMetadata {
    /// The realm identifying the protection space.
    pub realm: Option<String>,
    /// The authorization servers that the validator trusts.
    pub authorization_servers: Option<Vec<String>>,
    /// The accepted DPoP proof signing algorithms.
    pub dpop_signing_alg_values_supported: Option<Vec<String>>,
    /// Whether DPoP-bound tokens are required.
    pub dpop_bound_access_tokens_required: Option<bool>,
    /// The resource server's identifier URI.
    pub resource: Option<String>,
    /// The supported methods for presenting Bearer tokens.
    pub bearer_methods_supported: Option<Vec<&'static str>>,
}

/// The view of an optional list of strings.
pub open spec fn opt_texts(o: Option<Vec<String>>) -> Option<Seq<Seq<char>>> {
    match o {
        Some(v) => Some(texts(v@)),
        None => None,
    }
}

/// The view of an optional list of string slices.
pub open spec fn opt_strs(o: Option<Vec<&'static str>>) -> Option<Seq<Seq<char>>> {
    match o {
        Some(v) => Some(v@.map_values(|s: &'static str| s@)),
        None => None,
    }
}

/// The model of [`ResourceMetadata`].
pub struct MetadataView {
    pub realm: Option<Seq<char>>,
    pub authorization_servers: Option<Seq<Seq<char>>>,
    pub algorithms: Option<Seq<Seq<char>>>,
    pub dpop_required: Option<bool>,
    pub resource: Option<Seq<char>>,
    pub bearer_methods: Option<Seq<Seq<char>>>,
}

impl View for ResourceMetadata {
    type V = MetadataView;

    open spec fn view(&self) -> MetadataView {
        MetadataView {
            realm: opt_text(self.realm),
            authorization_servers: opt_texts(self.authorization_servers),
            algorithms: opt_texts(self.dpop_signing_alg_values_supported),
            dpop_required: self.dpop_bound_access_tokens_required,
            resource: opt_text(self.resource),
            bearer_methods: opt_strs(self.bearer_methods_supported),
        }
    }
}

// ── Challenges ───────────────────────────────────────────────────────────────

/// `huskarl_resource_server`'s classification of a failure.
#[verifier::external_type_specification]
#[verifier::external_body]
pub struct ExTokenValidationError(huskarl_resource_server::error::TokenValidationError);

/// `huskarl_resource_server`'s token scheme.
#[verifier::external_type_specification]
#[verifier::external_body]
pub struct ExTokenType(huskarl_resource_server::validator::extract::TokenType);

/// `huskarl_resource_server`'s challenge parameter.
#[verifier::external_type_specification]
#[verifier::external_body]
pub struct ExChallengeParam(huskarl_resource_server::error::ChallengeParam);

/// Hands a failure to `huskarl_resource_server`, field by field.
impl ToRfc6750Error for TokenFailure {
    /// The scheme as `TokenType`. Trusted to convert; nothing is claimed.
    #[verifier::external_body]
    fn attempted_scheme(&self) -> Option<TokenType> {
        self.scheme.map(|s| match s {
            TokenScheme::Bearer => TokenType::Bearer,
            TokenScheme::DPoP => TokenType::DPoP,
        })
    }

    /// The class as `TokenValidationError`. Trusted to convert; nothing is
    /// claimed.
    #[verifier::external_body]
    fn token_error(&self) -> TokenValidationError {
        let code = match self.error {
            FailureClass::Server(status) => {
                let status = http::StatusCode::from_u16(status).unwrap_or_default();
                return TokenValidationError::Server(status);
            }
            FailureClass::Client(FailureCode::InvalidRequest) => TokenErrorCode::InvalidRequest,
            FailureClass::Client(FailureCode::InvalidToken) => TokenErrorCode::InvalidToken,
            FailureClass::Client(FailureCode::InsufficientScope) => TokenErrorCode::InsufficientScope,
            FailureClass::Client(FailureCode::InvalidDPoPProof) => TokenErrorCode::InvalidDPoPProof,
            FailureClass::Client(FailureCode::UseDPoPNonce) => TokenErrorCode::UseDPoPNonce,
            FailureClass::Client(FailureCode::InsufficientUserAuthentication) => {
                TokenErrorCode::InsufficientUserAuthentication
            }
        };
        TokenValidationError::Client(code)
    }

    /// The description. Trusted to copy it; nothing is claimed.
    #[verifier::external_body]
    fn error_description(&self) -> Option<String> {
        self.description.clone()
    }

    /// The parameters as `ChallengeParam`s. Trusted to convert; nothing is
    /// claimed.
    #[verifier::external_body]
    fn extra_params(&self) -> Vec<ChallengeParam> {
        let convert = |p: &FailureParam| match p {
            FailureParam::Quoted(k, v) => ChallengeParam::Quoted(k, v.clone()),
            FailureParam::Token(k, v) => ChallengeParam::Token(k, v.clone()),
        };
        self.params.iter().map(convert).collect()
    }
}

/// The challenges for a request: a function of the metadata, of the failure, if
/// there is one, and of the scope that the resource asks for.
pub uninterp spec fn challenge_values(
    metadata: MetadataView,
    failure: Option<FailureView>,
    scope: Option<Seq<char>>,
) -> Seq<Seq<char>>;

/// How many authentication schemes are offered: bearer tokens, unless tokens
/// have to be bound to a DPoP key, and DPoP where it is supported or demanded.
pub open spec fn schemes_offered(metadata: MetadataView) -> nat {
    let demanded = metadata.dpop_required == Some(true);
    (if demanded {
        0nat
    } else {
        1nat
    }) + (if demanded || metadata.algorithms is Some {
        1nat
    } else {
        0nat
    })
}

/// How many challenges a request gets: one for each scheme, but none for a
/// failure of the server.
pub open spec fn challenge_count(metadata: MetadataView, failure: Option<FailureView>) -> nat {
    if failure is Some && failure->0.error is Server {
        0
    } else {
        schemes_offered(metadata)
    }
}

/// The `WWW-Authenticate` challenges for a request.
///
/// Trusted: `ValidatorMetadata::challenges` of `huskarl_resource_server`,
/// without an error URI. It gives one challenge for each scheme on offer, and
/// none for a failure of the server.
#[verifier::external_body]
pub(crate) fn challenges(
    metadata: &ResourceMetadata,
    failure: Option<&TokenFailure>,
    scope: Option<&str>,
) -> (r: Vec<String>)
    ensures
        texts(r@) == challenge_values(metadata@, opt_failure(failure), opt_str(scope)),
        r@.len() == challenge_count(metadata@, opt_failure(failure)),
{
    let outside = ValidatorMetadata {
        realm: metadata.realm.clone(),
        authorization_servers: metadata.authorization_servers.clone(),
        dpop_signing_alg_values_supported: metadata.dpop_signing_alg_values_supported.clone(),
        dpop_bound_access_tokens_required: metadata.dpop_bound_access_tokens_required,
        resource: metadata.resource.clone(),
        bearer_methods_supported: metadata.bearer_methods_supported.clone(),
    };
    outside.challenges(failure.map(|f| f as &dyn ToRfc6750Error), scope, None)
}

// ── Metadata as JSON ─────────────────────────────────────────────────────────

/// `members` with a value under `key`, where there is one.
pub open spec fn with_opt(
    members: Map<Seq<char>, Json>,
    key: Seq<char>,
    value: Option<Json>,
) -> Map<Seq<char>, Json> {
    match value {
        Some(v) => members.insert(key, v),
        None => members,
    }
}

/// A string as JSON, where there is one.
pub open spec fn json_str(o: Option<Seq<char>>) -> Option<Json> {
    match o {
        Some(s) => Some(Json::Str(s)),
        None => None,
    }
}

/// A list of strings as JSON, where there is one.
pub open spec fn json_strings(o: Option<Seq<Seq<char>>>) -> Option<Json> {
    match o {
        Some(v) => Some(Json::Strings(v)),
        None => None,
    }
}

/// A truth value as JSON, where there is one.
pub open spec fn json_bool(o: Option<bool>) -> Option<Json> {
    match o {
        Some(b) => Some(Json::Bool(b)),
        None => None,
    }
}

/// The members of the metadata as a JSON object: the fields that are present,
/// under their names.
pub open spec fn metadata_members(m: MetadataView) -> Map<Seq<char>, Json> {
    let a = with_opt(Map::empty(), "realm"@, json_str(m.realm));
    let b = with_opt(a, "authorization_servers"@, json_strings(m.authorization_servers));
    let c = with_opt(b, "dpop_signing_alg_values_supported"@, json_strings(m.algorithms));
    let d = with_opt(c, "dpop_bound_access_tokens_required"@, json_bool(m.dpop_required));
    let e = with_opt(d, "resource"@, json_str(m.resource));
    with_opt(e, "bearer_methods_supported"@, json_strings(m.bearer_methods))
}

/// The metadata as a JSON value.
///
/// Trusted: `serde_json::to_value` of `huskarl_resource_server`'s
/// `ValidatorMetadata`, which writes an object with the fields that are present
/// and cannot fail on strings and truth values.
#[verifier::external_body]
pub(crate) fn metadata_value(metadata: &ResourceMetadata) -> (r: Result<
    serde_json::Value,
    serde_json::Error,
>)
    ensures
        r is Ok,
        r matches Ok(v) ==> json_object(v) == Some(metadata_members(metadata@)),
{
    serde_json::to_value(ValidatorMetadata {
        realm: metadata.realm.clone(),
        authorization_servers: metadata.authorization_servers.clone(),
        dpop_signing_alg_values_supported: metadata.dpop_signing_alg_values_supported.clone(),
        dpop_bound_access_tokens_required: metadata.dpop_bound_access_tokens_required,
        resource: metadata.resource.clone(),
        bearer_methods_supported: metadata.bearer_methods_supported.clone(),
    })
}

// ── Laws ─────────────────────────────────────────────────────────────────────

/// The status that a failure is answered with: 400 for a malformed request, 403
/// for too small a scope, 401 for any other fault of the client, and for a
/// failure of the server the status that it names.
pub proof fn law_status_of_a_failure(class: &FailureClass, r: u16)
    requires
        call_ensures(FailureClass::suggested_status, (class,), r),
    ensures
        *class is Server ==> r == class->Server_0,
        *class == FailureClass::Client(FailureCode::InvalidRequest) ==> r == 400,
        *class == FailureClass::Client(FailureCode::InsufficientScope) ==> r == 403,
        *class is Client && class->Client_0 != FailureCode::InvalidRequest && class->Client_0
            != FailureCode::InsufficientScope ==> r == 401,
{
}

/// A failure of the client says its code and its description, and names no
/// scheme and no further parameter.
pub proof fn law_client_failure(code: FailureCode, description: String, r: TokenFailure)
    requires
        call_ensures(TokenFailure::client, (code, description), r),
    ensures
        r.scheme is None,
        r.error == FailureClass::Client(code),
        r.description is Some && r.description->0@ == description@,
        r.params@.len() == 0,
{
    assert(r@.params.len() == 0);
}

} // verus!
