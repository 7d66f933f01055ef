//! Response heads of the guard, and what the proxy around it does.

use std::sync::Arc;

use huskarl_pingora::resource::challenge::{FailureCode, ResourceMetadata, TokenFailure};
use huskarl_pingora::resource::guard::CheckStart;
use huskarl_pingora::resource::proxy::{
    apply_outcome, enter, insert_nonce, metadata_endpoint, strip_upstream_credentials, Disposition,
    Entry, MetadataEndpoint,
};
use huskarl_pingora::resource::response::{
    challenge_head, method_not_allowed_head, resource_metadata_head,
};
use huskarl_pingora::resource::validator::{ValidatedRequest, ValidationResult};
use huskarl_pingora::uri::Uri;
use huskarl_pingora::{AuthCtx, Guard, HasAuthState, HasScopes, Outcome, Rule};
use pingora_http::{RequestHeader, ResponseHeader};

// ── Heads ────────────────────────────────────────────────────────────────────

fn header<'a>(resp: &'a ResponseHeader, name: &str) -> Option<&'a str> {
    resp.headers.get(name).map(|v| v.to_str().unwrap())
}

#[test]
fn metadata_response_sets_json_and_cache() {
    let body = b"{\"resource\":\"https://api.example.com\"}";

    let resp = resource_metadata_head(body.len()).unwrap();

    assert_eq!(resp.status.as_u16(), 200);
    assert_eq!(header(&resp, "content-type"), Some("application/json"));
    assert_eq!(header(&resp, "cache-control"), Some("max-age=3600"));
    assert_eq!(
        header(&resp, "content-length"),
        Some(body.len().to_string().as_str())
    );
}

#[test]
fn challenge_response_401_with_challenges() {
    let challenges = vec![
        "Bearer realm=\"api\"".to_owned(),
        "DPoP algs=\"ES256\"".to_owned(),
    ];

    let resp = challenge_head(401, &challenges, None).unwrap();

    assert_eq!(resp.status.as_u16(), 401);
    let www_auth: Vec<_> = resp
        .headers
        .get_all("www-authenticate")
        .iter()
        .map(|v| v.to_str().unwrap().to_owned())
        .collect();
    assert_eq!(www_auth, challenges);
    assert_eq!(header(&resp, "content-length"), Some("0"));
    assert_eq!(header(&resp, "cache-control"), Some("no-store"));
    assert!(header(&resp, "dpop-nonce").is_none());
}

#[test]
fn challenge_response_with_dpop_nonce() {
    let resp = challenge_head(401, &vec!["Bearer".to_owned()], Some("server-nonce-abc")).unwrap();

    assert_eq!(header(&resp, "dpop-nonce"), Some("server-nonce-abc"));
}

#[test]
fn challenge_response_403() {
    let challenges = vec!["Bearer error=\"insufficient_scope\"".to_owned()];

    let resp = challenge_head(403, &challenges, None).unwrap();

    assert_eq!(resp.status.as_u16(), 403);
}

#[test]
fn method_not_allowed_response() {
    let resp = method_not_allowed_head("GET, HEAD").unwrap();

    assert_eq!(resp.status.as_u16(), 405);
    assert_eq!(header(&resp, "allow"), Some("GET, HEAD"));
    assert_eq!(header(&resp, "content-length"), Some("0"));
    assert_eq!(header(&resp, "cache-control"), Some("no-store"));
}

#[test]
fn heads_that_cannot_be_built() {
    let context = |r: Result<ResponseHeader, huskarl_pingora::headers::ResponseError>| {
        let e = r.err().unwrap();
        format!("{}:{}", e.context, e.cause.unwrap())
    };
    assert_eq!(
        context(challenge_head(99, &vec![], None)),
        "failed to build response header: InvalidHTTPHeader context: invalid status"
    );
    assert_eq!(
        context(challenge_head(401, &vec!["a\nb".to_owned()], None)),
        "failed to append WWW-Authenticate header: InvalidHTTPHeader context: \
         invalid value while append"
    );
    assert_eq!(
        context(challenge_head(401, &vec![], Some("\u{7f}"))),
        "failed to set DPoP-Nonce header: InvalidHTTPHeader context: invalid value while insert"
    );
    assert_eq!(
        context(method_not_allowed_head("GET\r\n")),
        "failed to set Allow header: InvalidHTTPHeader context: invalid value while insert"
    );
}

#[test]
fn header_values_may_hold_tabs_and_text_beyond_ascii() {
    let value = "a\tb \u{e9}";
    let resp = challenge_head(401, &vec![value.to_owned()], None).unwrap();
    assert_eq!(
        resp.headers.get("www-authenticate").unwrap().as_bytes(),
        value.as_bytes()
    );
}

// ── The proxy around the guard ───────────────────────────────────────────────

#[derive(Debug, Clone)]
struct MockClaims;

impl HasScopes for MockClaims {
    fn has_scope(&self, _scope: &str) -> bool {
        false
    }
}

enum Validator {
    Missing,
    Valid,
    Invalid,
}

impl Validator {
    fn report(&self) -> ValidationResult<MockClaims> {
        ValidationResult {
            outcome: match self {
                Validator::Missing => Ok(None),
                Validator::Valid => Ok(Some(ValidatedRequest {
                    issuer: None,
                    subject: None,
                    audience: vec![],
                    jti: None,
                    issued_at: None,
                    expiration: None,
                    cnf: None,
                    claims: MockClaims,
                    introspection_jwt: None,
                })),
                Validator::Invalid => Err(TokenFailure::client(
                    FailureCode::InvalidToken,
                    "mock invalid token".into(),
                )),
            },
            dpop_nonce: None,
        }
    }
}

/// A proxy with a guard, as far as it decides.
struct Proxy {
    guard: Guard<MockClaims>,
    validator: Validator,
    endpoint: Option<MetadataEndpoint>,
}

/// What became of a request.
enum Handled {
    Forwarded,
    Answered(ResponseHeader),
}

impl Proxy {
    fn new(validator: Validator, routes: Vec<(&str, Rule<MockClaims>)>, metadata: bool) -> Self {
        let mut builder = Guard::builder();
        for (pattern, rule) in routes {
            builder = builder.route(pattern.into(), rule);
        }
        let guard = builder
            .build(ResourceMetadata {
                realm: None,
                authorization_servers: None,
                dpop_signing_alg_values_supported: None,
                dpop_bound_access_tokens_required: None,
                resource: None,
                bearer_methods_supported: None,
            })
            .unwrap();
        let endpoint = metadata_endpoint(&guard, metadata).unwrap();
        Proxy {
            guard,
            validator,
            endpoint,
        }
    }

    fn request_filter(
        &self,
        method: &str,
        path: &str,
        ctx: &mut AuthCtx<(), MockClaims>,
    ) -> Handled {
        match enter(self.endpoint.as_ref(), path, method) {
            Entry::Metadata => {
                let body = &self.endpoint.as_ref().unwrap().body;
                return Handled::Answered(resource_metadata_head(body.len()).unwrap());
            }
            Entry::MethodNotAllowed => {
                return Handled::Answered(method_not_allowed_head("GET, HEAD").unwrap());
            }
            Entry::Check => {}
        }
        let request = Uri {
            scheme: None,
            authority: None,
            path: path.to_owned(),
            query: None,
        };
        let outcome = match self.guard.begin_check(&request) {
            CheckStart::Decided(outcome) => outcome,
            CheckStart::Validate(_) => self.guard.finish_check(&request, self.validator.report()),
        };
        match apply_outcome(outcome, ctx) {
            Disposition::Forward => Handled::Forwarded,
            Disposition::Deny(head) => Handled::Answered(head.unwrap()),
        }
    }
}

fn new_ctx() -> AuthCtx<(), MockClaims> {
    AuthCtx::new(())
}

fn answer(handled: Handled) -> ResponseHeader {
    match handled {
        Handled::Answered(resp) => resp,
        Handled::Forwarded => panic!("forwarded"),
    }
}

#[test]
fn valid_token_forwards_to_inner() {
    let proxy = Proxy::new(Validator::Valid, vec![], false);
    let mut ctx = new_ctx();

    let handled = proxy.request_filter("GET", "/api", &mut ctx);

    assert!(matches!(handled, Handled::Forwarded));
    assert!(ctx.validated_token().is_some());
}

#[test]
fn no_token_on_required_route_returns_401() {
    let proxy = Proxy::new(Validator::Missing, vec![], false);
    let mut ctx = new_ctx();

    let resp = answer(proxy.request_filter("GET", "/api", &mut ctx));

    assert_eq!(resp.status.as_u16(), 401);
    assert!(ctx.validated_token().is_none());
}

#[test]
fn invalid_token_returns_error_response() {
    let proxy = Proxy::new(Validator::Invalid, vec![], false);
    let mut ctx = new_ctx();

    let resp = answer(proxy.request_filter("GET", "/api", &mut ctx));

    assert!(resp.status.as_u16() == 401 || resp.status.as_u16() == 403);
}

#[test]
fn public_route_forwards_without_token() {
    let proxy = Proxy::new(
        Validator::Missing,
        vec![("/health", Rule::public())],
        false,
    );
    let mut ctx = new_ctx();

    let handled = proxy.request_filter("GET", "/health", &mut ctx);

    assert!(matches!(handled, Handled::Forwarded));
    assert!(ctx.validated_token().is_none());
}

#[test]
fn metadata_endpoint_serves_json() {
    let proxy = Proxy::new(Validator::Missing, vec![], true);
    let mut ctx = new_ctx();

    let resp =
        answer(proxy.request_filter("GET", "/.well-known/oauth-protected-resource", &mut ctx));

    assert_eq!(resp.status.as_u16(), 200);
    assert_eq!(header(&resp, "content-type"), Some("application/json"));
}

#[test]
fn metadata_endpoint_post_returns_405() {
    let proxy = Proxy::new(Validator::Missing, vec![], true);
    let mut ctx = new_ctx();

    let resp =
        answer(proxy.request_filter("POST", "/.well-known/oauth-protected-resource", &mut ctx));

    assert_eq!(resp.status.as_u16(), 405);
    assert_eq!(header(&resp, "allow"), Some("GET, HEAD"));
}

#[test]
fn metadata_endpoint_is_off_unless_enabled() {
    let proxy = Proxy::new(Validator::Missing, vec![], false);
    let resp = answer(proxy.request_filter(
        "GET",
        "/.well-known/oauth-protected-resource",
        &mut new_ctx(),
    ));
    assert_eq!(resp.status.as_u16(), 401);
}

#[test]
fn strip_credentials_removes_auth_headers() {
    let proxy = Proxy::new(Validator::Valid, vec![], false);
    let mut ctx = new_ctx();

    proxy.request_filter("GET", "/api", &mut ctx);
    assert!(ctx.strip_credentials()); // default is true

    let mut upstream_req = RequestHeader::build("GET", b"/api", None).unwrap();
    upstream_req
        .insert_header("Authorization", "Bearer tok123")
        .unwrap();
    upstream_req.insert_header("DPoP", "proof").unwrap();
    upstream_req.insert_header("X-Other", "kept").unwrap();

    strip_upstream_credentials(&ctx, &mut upstream_req);

    assert!(upstream_req.headers.get("authorization").is_none());
    assert!(upstream_req.headers.get("dpop").is_none());
    assert_eq!(upstream_req.headers.get("x-other").unwrap(), "kept");
}

#[test]
fn strip_credentials_false_preserves_headers() {
    let proxy = Proxy::new(
        Validator::Valid,
        vec![("/api", Rule::required().strip_credentials(false))],
        false,
    );
    let mut ctx = new_ctx();

    proxy.request_filter("GET", "/api", &mut ctx);
    assert!(!ctx.strip_credentials());

    let mut upstream_req = RequestHeader::build("GET", b"/api", None).unwrap();
    upstream_req
        .insert_header("Authorization", "Bearer tok123")
        .unwrap();

    strip_upstream_credentials(&ctx, &mut upstream_req);

    assert!(upstream_req.headers.get("authorization").is_some());
}

#[test]
fn response_filter_inserts_dpop_nonce() {
    let mut ctx = new_ctx();
    *ctx.dpop_nonce_mut() = Some("test-nonce".into());

    let mut resp = ResponseHeader::build(200, Some(1)).unwrap();

    insert_nonce(&mut ctx, &mut resp).unwrap();

    assert_eq!(header(&resp, "dpop-nonce"), Some("test-nonce"));
    // The nonce is consumed.
    assert!(ctx.dpop_nonce_mut().is_none());
}

#[test]
fn response_filter_no_nonce_leaves_response_clean() {
    let mut ctx = new_ctx();

    let mut resp = ResponseHeader::build(200, Some(1)).unwrap();

    insert_nonce(&mut ctx, &mut resp).unwrap();

    assert!(header(&resp, "dpop-nonce").is_none());
}

#[test]
fn a_nonce_replaces_the_nonce_and_nothing_else() {
    let mut resp = ResponseHeader::build(200, None).unwrap();
    resp.append_header("DPoP-Nonce", "old").unwrap();
    resp.append_header("dpop-nonce", "older").unwrap();
    resp.append_header("X-Upstream", "a").unwrap();
    let mut ctx = new_ctx();
    *ctx.dpop_nonce_mut() = Some("n\n".into());
    let e = insert_nonce(&mut ctx, &mut resp).unwrap_err();
    assert_eq!(e.context, "failed to set DPoP-Nonce header");
    let refused = apply_outcome(
        Outcome::Deny {
            status: 401,
            challenges: vec!["a\nb".into()],
            dpop_nonce: Some("n\n".into()),
        },
        &mut ctx,
    );
    assert!(matches!(
        refused,
        Disposition::Deny(Err(e)) if e.context == "failed to append WWW-Authenticate header"
    ));
    assert_eq!(resp.headers.get_all("dpop-nonce").iter().count(), 2);
    *ctx.dpop_nonce_mut() = Some("new".into());
    insert_nonce(&mut ctx, &mut resp).unwrap();
    let nonces: Vec<&http::HeaderValue> = resp.headers.get_all("dpop-nonce").iter().collect();
    assert_eq!(nonces, ["new"]);
    assert_eq!(header(&resp, "x-upstream"), Some("a"));
    assert_eq!(resp.headers.keys_len(), 2);
}

#[test]
fn outcomes_reach_the_context() {
    let token = match Validator::Valid.report().outcome {
        Ok(Some(t)) => Arc::new(t),
        _ => unreachable!(),
    };
    let mut ctx = new_ctx();
    let done = apply_outcome(
        Outcome::Forward {
            token: Some(token.clone()),
            dpop_nonce: Some("n".into()),
            strip_credentials: false,
        },
        &mut ctx,
    );
    assert!(matches!(done, Disposition::Forward));
    assert!(Arc::ptr_eq(ctx.validated_token().unwrap(), &token));
    assert_eq!(ctx.dpop_nonce_mut().as_deref(), Some("n"));
    assert!(!ctx.strip_credentials());

    let mut ctx = new_ctx();
    let done = apply_outcome(
        Outcome::Deny {
            status: 401,
            challenges: vec!["Bearer".into()],
            dpop_nonce: Some("n".into()),
        },
        &mut ctx,
    );
    match done {
        Disposition::Deny(Ok(head)) => {
            assert_eq!(header(&head, "www-authenticate"), Some("Bearer"));
            assert_eq!(header(&head, "dpop-nonce"), Some("n"));
        }
        _ => panic!("not denied"),
    }
    assert!(ctx.validated_token().is_none());
}
