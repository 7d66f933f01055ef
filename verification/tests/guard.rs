//! The guard: routing, rules, challenges and metadata.

use std::cell::RefCell;
use std::sync::Arc;

use huskarl_pingora::resource::challenge::{
    FailureClass, FailureCode, FailureParam, ResourceMetadata, TokenFailure, TokenScheme,
};
use huskarl_pingora::resource::guard::{is_routable, CheckStart};
use huskarl_pingora::resource::rule::CheckFn;
use huskarl_pingora::resource::validator::{ValidatedRequest, ValidationResult};
use huskarl_pingora::uri::Uri;
use huskarl_pingora::{CheckError, ConfigError, Guard, GuardBuilder, HasScopes, Outcome, Rule};

/// The parts of a URI, as `http` reads them.
fn uri(text: &str) -> Uri {
    let parsed: http::Uri = text.parse().unwrap();
    Uri {
        scheme: parsed.scheme_str().map(str::to_owned),
        authority: parsed.authority().map(|a| a.as_str().to_owned()),
        path: parsed.path().to_owned(),
        query: parsed.query().map(str::to_owned),
    }
}

fn owned(values: &[&str]) -> Vec<String> {
    values.iter().map(|v| (*v).to_owned()).collect()
}

fn custom<F>(f: F) -> Arc<dyn CheckFn<MockClaims>>
where
    F: Fn(&ValidatedRequest<MockClaims>) -> Result<(), CheckError> + Send + Sync + 'static,
{
    Arc::new(f)
}

#[derive(Debug, Clone)]
struct MockClaims {
    scopes: Option<String>,
}

impl HasScopes for MockClaims {
    fn has_scope(&self, scope: &str) -> bool {
        self.scopes
            .as_ref()
            .is_some_and(|s| s.split_whitespace().any(|t| t == scope))
    }
}

/// What the validator reports of every request.
enum Validator {
    Missing,
    Valid {
        claims: MockClaims,
        audience: Vec<String>,
    },
    Invalid,
}

impl Validator {
    fn no_token() -> Self {
        Validator::Missing
    }

    fn valid(claims: MockClaims) -> Self {
        Validator::Valid {
            claims,
            audience: vec![],
        }
    }

    fn valid_with_audience(claims: MockClaims, audience: Vec<String>) -> Self {
        Validator::Valid { claims, audience }
    }

    fn invalid() -> Self {
        Validator::Invalid
    }

    fn report(&self) -> ValidationResult<MockClaims> {
        let outcome = match self {
            Validator::Missing => Ok(None),
            Validator::Valid { claims, audience } => Ok(Some(ValidatedRequest {
                issuer: None,
                subject: None,
                audience: audience.clone(),
                jti: None,
                issued_at: None,
                expiration: None,
                cnf: None,
                claims: claims.clone(),
                introspection_jwt: None,
            })),
            Validator::Invalid => Err(TokenFailure::client(
                FailureCode::InvalidToken,
                "mock invalid token".into(),
            )),
        };
        ValidationResult {
            outcome,
            dpop_nonce: None,
        }
    }
}

fn metadata(resource: Option<&str>) -> ResourceMetadata {
    ResourceMetadata {
        realm: None,
        authorization_servers: None,
        dpop_signing_alg_values_supported: None,
        dpop_bound_access_tokens_required: None,
        resource: resource.map(String::from),
        bearer_methods_supported: None,
    }
}

/// A guard with its validator, which keeps the URI that it was last asked about.
struct Checked {
    guard: Guard<MockClaims>,
    validator: Validator,
    captured: RefCell<Option<Uri>>,
}

impl Checked {
    fn new(validator: Validator, builder: GuardBuilder<MockClaims>) -> Self {
        let resource = builder.resource.as_ref().map(Uri::text);
        Checked {
            guard: builder.build(metadata(resource.as_deref())).unwrap(),
            validator,
            captured: RefCell::new(None),
        }
    }
}

fn build_guard(validator: Validator, routes: Vec<(&str, Rule<MockClaims>)>) -> Checked {
    let mut builder = Guard::builder();
    for (pattern, rule) in routes {
        builder = builder.route(pattern.into(), rule);
    }
    Checked::new(validator, builder)
}

fn build_guard_with_resource(
    validator: Validator,
    routes: Vec<(&str, Rule<MockClaims>)>,
    resource: &str,
    strip_prefix: Option<&str>,
) -> Checked {
    let mut builder = Guard::builder()
        .resource(uri(resource))
        .maybe_strip_prefix(strip_prefix.map(String::from));
    for (pattern, rule) in routes {
        builder = builder.route(pattern.into(), rule);
    }
    Checked::new(validator, builder)
}

fn check(checked: &Checked, target: &str) -> Outcome<MockClaims> {
    let request = uri(target);
    match checked.guard.begin_check(&request) {
        CheckStart::Decided(outcome) => outcome,
        CheckStart::Validate(client_uri) => {
            *checked.captured.borrow_mut() = Some(client_uri);
            checked.guard.finish_check(&request, checked.validator.report())
        }
    }
}

// ── Resource_metadata tests ───────────────────────────────────────────────────

#[test]
fn guard_resource_metadata_default_path() {
    let guard = build_guard(Validator::no_token(), vec![]);
    let (path, _) = guard.guard.resource_metadata().unwrap();
    assert_eq!(path, "/.well-known/oauth-protected-resource");
}

#[test]
fn guard_resource_metadata_with_resource_path() {
    let guard = build_guard_with_resource(
        Validator::no_token(),
        vec![],
        "https://api.example.com/tenant1",
        None,
    );
    let (path, _) = guard.guard.resource_metadata().unwrap();
    assert_eq!(path, "/.well-known/oauth-protected-resource/tenant1");
}

#[test]
fn guard_resource_metadata_root_path_no_suffix() {
    let guard = build_guard_with_resource(
        Validator::no_token(),
        vec![],
        "https://api.example.com/",
        None,
    );
    let (path, _) = guard.guard.resource_metadata().unwrap();
    assert_eq!(path, "/.well-known/oauth-protected-resource");
}

#[test]
fn guard_resource_metadata_includes_scopes() {
    let guard = build_guard(
        Validator::no_token(),
        vec![
            ("/admin", Rule::required().scopes(owned(&["admin", "write"]))),
            ("/read", Rule::required().scopes(owned(&["read"]))),
        ],
    );
    let (_, json) = guard.guard.resource_metadata().unwrap();
    let value: serde_json::Value = serde_json::from_slice(&json).unwrap();
    let scopes = value["scopes_supported"].as_array().unwrap();
    let scope_strs: Vec<&str> = scopes.iter().map(|v| v.as_str().unwrap()).collect();
    // BTreeSet orders alphabetically
    assert_eq!(scope_strs, vec!["admin", "read", "write"]);
}

#[test]
fn guard_resource_metadata_no_scopes_omits_field() {
    let guard = build_guard(Validator::no_token(), vec![]);
    let (_, json) = guard.guard.resource_metadata().unwrap();
    let value: serde_json::Value = serde_json::from_slice(&json).unwrap();
    assert!(value.get("scopes_supported").is_none());
}

// ── Check_request: routing and token requirement ──────────────────────────────

#[test]
fn guard_public_route_skips_validation() {
    let guard = build_guard(Validator::no_token(), vec![("/health", Rule::public())]);
    let outcome = check(&guard, "/health");
    assert!(matches!(outcome, Outcome::Forward { token: None, .. }));
    // Validator must not have been called.
    assert!(guard.captured.take().is_none());
}

#[test]
fn guard_required_route_no_token_denies_401() {
    let guard = build_guard(Validator::no_token(), vec![]);
    let outcome = check(&guard, "/api");
    assert!(matches!(
        outcome,
        Outcome::Deny { status, .. } if status == 401
    ));
}

#[test]
fn guard_required_route_valid_token_forwards() {
    let claims = MockClaims { scopes: None };
    let guard = build_guard(Validator::valid(claims), vec![]);
    let outcome = check(&guard, "/api");
    assert!(matches!(outcome, Outcome::Forward { token: Some(_), .. }));
}

#[test]
fn guard_required_route_invalid_token_denies() {
    let guard = build_guard(Validator::invalid(), vec![]);
    let outcome = check(&guard, "/api");
    assert!(matches!(outcome, Outcome::Deny { .. }));
}

#[test]
fn guard_optional_route_no_token_forwards() {
    let guard = build_guard(Validator::no_token(), vec![("/api", Rule::optional())]);
    let outcome = check(&guard, "/api");
    assert!(matches!(outcome, Outcome::Forward { token: None, .. }));
}

#[test]
fn guard_optional_route_valid_token_forwards_with_token() {
    let claims = MockClaims { scopes: None };
    let guard = build_guard(
        Validator::valid(claims),
        vec![("/api", Rule::optional())],
    );
    let outcome = check(&guard, "/api");
    assert!(matches!(outcome, Outcome::Forward { token: Some(_), .. }));
}

#[test]
fn guard_default_rule_applies_to_unmatched_paths() {
    let guard = Checked::new(
        Validator::no_token(),
        Guard::builder()
            .route("/health".into(), Rule::public())
            .default(Rule::optional()),
    );

    let outcome = check(&guard, "/health");
    assert!(matches!(outcome, Outcome::Forward { token: None, .. }));

    // Unmatched path uses the default Optional rule; no token → Forward.
    let outcome = check(&guard, "/other");
    assert!(matches!(outcome, Outcome::Forward { token: None, .. }));
}

// ── Check_request: scope enforcement ──────────────────────────────────────────

#[test]
fn guard_scope_check_passes() {
    let claims = MockClaims {
        scopes: Some("admin read".into()),
    };
    let guard = build_guard(
        Validator::valid(claims),
        vec![("/admin", Rule::required().scopes(owned(&["admin"])))],
    );
    let outcome = check(&guard, "/admin");
    assert!(matches!(outcome, Outcome::Forward { token: Some(_), .. }));
}

#[test]
fn guard_scope_check_failure_denies_403() {
    let claims = MockClaims {
        scopes: Some("read".into()),
    };
    let guard = build_guard(
        Validator::valid(claims),
        vec![("/admin", Rule::required().scopes(owned(&["admin"])))],
    );
    let outcome = check(&guard, "/admin");
    assert!(matches!(
        outcome,
        Outcome::Deny { status, .. } if status == 403
    ));
}

#[test]
fn guard_multiple_scopes_all_required() {
    let claims = MockClaims {
        scopes: Some("read".into()),
    };
    let guard = build_guard(
        Validator::valid(claims),
        vec![("/api", Rule::required().scopes(owned(&["read", "write"])))],
    );
    // Has "read" but not "write" → denied.
    let outcome = check(&guard, "/api");
    assert!(matches!(
        outcome,
        Outcome::Deny { status, .. } if status == 403
    ));
}

// ── Check_request: audience enforcement ───────────────────────────────────────

#[test]
fn guard_audience_check_passes() {
    let claims = MockClaims { scopes: None };
    let guard = build_guard(
        Validator::valid_with_audience(claims, vec!["my-api".into()]),
        vec![("/api", Rule::required().audience("my-api".into()))],
    );
    let outcome = check(&guard, "/api");
    assert!(matches!(outcome, Outcome::Forward { token: Some(_), .. }));
}

#[test]
fn guard_audience_mismatch_denies_401() {
    let claims = MockClaims { scopes: None };
    let guard = build_guard(
        Validator::valid_with_audience(claims, vec!["other-api".into()]),
        vec![("/api", Rule::required().audience("my-api".into()))],
    );
    let outcome = check(&guard, "/api");
    assert!(matches!(
        outcome,
        Outcome::Deny { status, .. } if status == 401
    ));
}

// ── Check_request: custom checks ──────────────────────────────────────────────

#[test]
fn guard_custom_check_forbidden_denies_403() {
    let claims = MockClaims { scopes: None };
    let guard = build_guard(
        Validator::valid(claims),
        vec![(
            "/api",
            Rule::required().check(custom(|_: &ValidatedRequest<MockClaims>| Err(CheckError::Forbidden("nope".into())))),
        )],
    );
    let outcome = check(&guard, "/api");
    assert!(matches!(
        outcome,
        Outcome::Deny { status, .. } if status == 403
    ));
}

#[test]
fn guard_custom_check_invalid_token_denies_401() {
    let claims = MockClaims { scopes: None };
    let guard = build_guard(
        Validator::valid(claims),
        vec![(
            "/api",
            Rule::required().check(custom(|_: &ValidatedRequest<MockClaims>| Err(CheckError::InvalidToken("bad".into())))),
        )],
    );
    let outcome = check(&guard, "/api");
    assert!(matches!(
        outcome,
        Outcome::Deny { status, .. } if status == 401
    ));
}

#[test]
fn guard_custom_check_ok_forwards() {
    let claims = MockClaims { scopes: None };
    let guard = build_guard(
        Validator::valid(claims),
        vec![("/api", Rule::required().check(custom(|_: &ValidatedRequest<MockClaims>| Ok(()))))],
    );
    let outcome = check(&guard, "/api");
    assert!(matches!(outcome, Outcome::Forward { token: Some(_), .. }));
}

// ── Check_request: strip_credentials ──────────────────────────────────────────

#[test]
fn guard_strip_credentials_propagated() {
    let claims = MockClaims { scopes: None };
    let guard = build_guard(
        Validator::valid(claims),
        vec![("/api", Rule::required().strip_credentials(false))],
    );
    let outcome = check(&guard, "/api");
    match outcome {
        Outcome::Forward {
            strip_credentials, ..
        } => assert!(!strip_credentials),
        other => panic!("expected Forward, got {}", other.describe()),
    }
}

// ── Request_uri reconstruction ────────────────────────────────────────────────

#[test]
fn guard_request_uri_without_base_passes_original() {
    let guard = build_guard(Validator::no_token(), vec![]);
    let _ = check(&guard, "/api/data?q=1");
    let captured = guard.captured.take().unwrap();
    assert_eq!(captured.text(), "/api/data?q=1");
}

#[test]
fn guard_request_uri_with_base_prepends_path() {
    let guard = build_guard_with_resource(
        Validator::no_token(),
        vec![],
        "https://api.example.com/v1",
        None,
    );
    let _ = check(&guard, "/users");
    let captured = guard.captured.take().unwrap();
    assert_eq!(captured.text(), "https://api.example.com/v1/users");
}

#[test]
fn guard_request_uri_with_strip_prefix() {
    let guard = build_guard_with_resource(
        Validator::no_token(),
        vec![],
        "https://api.example.com",
        Some("/proxy"),
    );
    let _ = check(&guard, "/proxy/users");
    let captured = guard.captured.take().unwrap();
    assert_eq!(captured.text(), "https://api.example.com/users");
}

#[test]
fn guard_request_uri_strip_prefix_no_match_denies() {
    let guard = build_guard_with_resource(
        Validator::no_token(),
        vec![],
        "https://api.example.com",
        Some("/proxy"),
    );
    let outcome = check(&guard, "/other/users");

    // Validation should not have been called
    assert!(guard.captured.take().is_none());

    assert!(matches!(
        outcome,
        Outcome::Deny { status, .. } if status == 400
    ));
}

#[test]
fn guard_request_uri_preserves_query_string() {
    let guard = build_guard_with_resource(
        Validator::no_token(),
        vec![],
        "https://api.example.com",
        None,
    );
    let _ = check(&guard, "/users?page=2");
    let captured = guard.captured.take().unwrap();
    assert_eq!(captured.text(), "https://api.example.com/users?page=2");
}

// ── The same through `Guard::new` ────────────────────────────────────────────

fn plain_guard(
    routes: Vec<(&str, Rule<MockClaims>)>,
    resource: Option<&str>,
) -> Guard<MockClaims> {
    let routes = routes.into_iter().map(|(p, r)| (p.to_owned(), r)).collect();
    Guard::new(
        metadata(resource),
        routes,
        resource.map(uri),
        None,
        Rule::required(),
    )
    .unwrap()
}

#[test]
fn tests_resource_metadata_default_path() {
    let guard = plain_guard(vec![], None);
    let (path, _) = guard.resource_metadata().unwrap();
    assert_eq!(path, "/.well-known/oauth-protected-resource");
}

#[test]
fn tests_resource_metadata_with_resource_path() {
    let guard = plain_guard(vec![], Some("https://api.example.com/tenant1"));
    let (path, _) = guard.resource_metadata().unwrap();
    assert_eq!(path, "/.well-known/oauth-protected-resource/tenant1");
}

#[test]
fn tests_resource_metadata_root_path_no_suffix() {
    let guard = plain_guard(vec![], Some("https://api.example.com/"));
    let (path, _) = guard.resource_metadata().unwrap();
    assert_eq!(path, "/.well-known/oauth-protected-resource");
}

#[test]
fn tests_resource_metadata_includes_scopes() {
    let guard = plain_guard(
        vec![
            ("/admin", Rule::required().scopes(owned(&["admin", "write"]))),
            ("/read", Rule::required().scopes(owned(&["read"]))),
        ],
        None,
    );
    let (_, json) = guard.resource_metadata().unwrap();
    let value: serde_json::Value = serde_json::from_slice(&json).unwrap();
    let scopes = value["scopes_supported"].as_array().unwrap();
    let scope_strs: Vec<&str> = scopes.iter().map(|v| v.as_str().unwrap()).collect();
    assert_eq!(scope_strs, vec!["admin", "read", "write"]);
}

#[test]
fn tests_resource_metadata_no_scopes_omits_field() {
    let guard = plain_guard(vec![], None);
    let (_, json) = guard.resource_metadata().unwrap();
    let value: serde_json::Value = serde_json::from_slice(&json).unwrap();
    assert!(value.get("scopes_supported").is_none());
}

// ── Metadata and challenges in full ──────────────────────────────────────────

#[test]
fn metadata_lists_what_the_validator_says() {
    let all = ResourceMetadata {
        realm: Some("api".into()),
        authorization_servers: Some(owned(&["https://as.example.com"])),
        dpop_signing_alg_values_supported: Some(owned(&["ES256", "RS256"])),
        dpop_bound_access_tokens_required: Some(true),
        resource: Some("https://api.example.com/".into()),
        bearer_methods_supported: Some(vec!["header"]),
    };
    let guard = Guard::<MockClaims>::builder()
        .default(Rule::required().scopes(owned(&["b", "a", "b"])))
        .build(all)
        .unwrap();
    let (_, json) = guard.resource_metadata().unwrap();
    assert_eq!(
        String::from_utf8(json).unwrap(),
        "{\"authorization_servers\":[\"https://as.example.com\"],\
         \"bearer_methods_supported\":[\"header\"],\
         \"dpop_bound_access_tokens_required\":true,\
         \"dpop_signing_alg_values_supported\":[\"ES256\",\"RS256\"],\
         \"realm\":\"api\",\
         \"resource\":\"https://api.example.com/\",\
         \"scopes_supported\":[\"a\",\"b\"]}"
    );
}

fn denial(outcome: Outcome<MockClaims>) -> (u16, Vec<String>, Option<String>) {
    match outcome {
        Outcome::Deny {
            status,
            challenges,
            dpop_nonce,
        } => (status, challenges, dpop_nonce),
        other => panic!("expected Deny, got {}", other.describe()),
    }
}

#[test]
fn missing_token_is_challenged_without_an_error() {
    let rule = Rule::required().scopes(owned(&["read", "write"]));
    let guard = build_guard(Validator::no_token(), vec![("/api", rule)]);
    let (status, challenges, nonce) = denial(check(&guard, "/api"));
    assert_eq!(status, 401);
    assert_eq!(challenges, ["Bearer scope=\"read write\""]);
    assert_eq!(nonce, None);
}

#[test]
fn refused_token_is_challenged_with_its_error() {
    let guard = build_guard(Validator::invalid(), vec![]);
    let (status, challenges, _) = denial(check(&guard, "/api"));
    assert_eq!(status, 401);
    assert_eq!(
        challenges,
        ["Bearer error=\"invalid_token\", error_description=\"mock invalid token\""]
    );
}

#[test]
fn missing_scope_is_named_in_the_challenge() {
    let claims = MockClaims { scopes: None };
    let rule = Rule::required().scopes(owned(&["admin"]));
    let guard = build_guard(Validator::valid(claims), vec![("/admin", rule)]);
    let (status, challenges, _) = denial(check(&guard, "/admin"));
    assert_eq!(status, 403);
    assert_eq!(challenges.len(), 1);
    assert!(challenges[0].contains("error=\"insufficient_scope\""));
    assert!(challenges[0].contains("scope=\"admin\""));
}

#[test]
fn prefix_mismatch_is_an_invalid_request() {
    let guard = build_guard_with_resource(
        Validator::no_token(),
        vec![],
        "https://api.example.com",
        Some("/proxy"),
    );
    let (status, challenges, _) = denial(check(&guard, "/other"));
    assert_eq!(status, 400);
    assert!(challenges[0].contains("error=\"invalid_request\""));
}

#[test]
fn failures_keep_scheme_parameters_and_nonce() {
    let mut offers_dpop = metadata(None);
    offers_dpop.realm = Some("api".into());
    offers_dpop.dpop_signing_alg_values_supported = Some(owned(&["ES256"]));
    let guard = Guard::<MockClaims>::builder().build(offers_dpop).unwrap();
    let result = ValidationResult {
        outcome: Err(TokenFailure {
            scheme: Some(TokenScheme::DPoP),
            error: FailureClass::Client(FailureCode::UseDPoPNonce),
            description: None,
            params: vec![FailureParam::Quoted("hint", "x y".into())],
        }),
        dpop_nonce: Some("n-1".into()),
    };
    let (status, challenges, nonce) = denial(guard.finish_check(&uri("/api"), result));
    assert_eq!(status, 401);
    assert_eq!(nonce.as_deref(), Some("n-1"));
    // One challenge for each scheme on offer.
    assert_eq!(challenges.len(), 2);
    let all = challenges.join("\n");
    assert!(all.contains("error=\"use_dpop_nonce\""), "{all}");
    assert!(all.contains("hint=\"x y\""), "{all}");
    assert!(all.contains("DPoP realm=\"api\""), "{all}");
}

#[test]
fn server_failures_keep_their_status() {
    let guard = build_guard(Validator::no_token(), vec![]).guard;
    let result = ValidationResult {
        outcome: Err(TokenFailure {
            scheme: None,
            error: FailureClass::Server(503),
            description: None,
            params: vec![],
        }),
        dpop_nonce: None,
    };
    let (status, challenges, _) = denial(guard.finish_check(&uri("/api"), result));
    assert_eq!(status, 503);
    assert!(challenges.is_empty());
    assert_eq!(FailureClass::Server(503).suggested_status(), 503);
    let status = |c| FailureClass::Client(c).suggested_status();
    assert_eq!(status(FailureCode::InvalidRequest), 400);
    assert_eq!(status(FailureCode::InsufficientScope), 403);
    assert_eq!(status(FailureCode::InvalidDPoPProof), 401);
    assert_eq!(status(FailureCode::InsufficientUserAuthentication), 401);
}

// ── Routes ───────────────────────────────────────────────────────────────────

#[test]
fn literal_routes_come_before_parameters() {
    let guard = build_guard(
        Validator::no_token(),
        vec![
            ("/users/{id}", Rule::required()),
            ("/users/me", Rule::public()),
            ("/files/{*rest}", Rule::optional()),
        ],
    );
    let token = |path: &str| guard.guard.rule_for(path).token;
    assert_eq!(token("/users/me"), Rule::<()>::public().token);
    assert_eq!(token("/users/7"), Rule::<()>::required().token);
    assert_eq!(token("/files/a/b"), Rule::<()>::optional().token);
    assert_eq!(token("/users/7/x"), Rule::<()>::required().token);
}

#[test]
fn unenforceable_rules_are_refused() {
    let refused = |builder: GuardBuilder<MockClaims>| match builder.build(metadata(None)) {
        Err(e) => e,
        Ok(_) => panic!("accepted"),
    };
    let e = refused(
        Guard::builder()
            .route("/{bad".into(), Rule::required())
            .route("/a".into(), Rule::public().scopes(owned(&["s"])))
            .route("/b".into(), Rule::public().audience("x".into())),
    );
    assert!(matches!(&e, ConfigError::PublicRuleWithConstraints(p) if p == "/a"));
    assert_eq!(
        e.message(),
        "public rule for \"/a\" has audience or scope constraints that can never be enforced"
    );
    let e = refused(Guard::builder().default(Rule::public().audience("x".into())));
    assert!(matches!(e, ConfigError::PublicRuleWithConstraints(p) if p == "<default>"));
}

#[test]
fn refused_patterns_are_reported() {
    let e = Guard::<MockClaims>::builder()
        .route("/ok".into(), Rule::required())
        .route("/{bad".into(), Rule::required())
        .build(metadata(None))
        .err()
        .unwrap();
    assert!(matches!(
        e,
        ConfigError::Route(matchit::InsertError::InvalidParam)
    ));
    assert_eq!(
        e.message(),
        "invalid route pattern: Parameters must be registered with a valid name"
    );
    let e = Guard::<MockClaims>::builder()
        .route("/a".into(), Rule::required())
        .route("/a".into(), Rule::public())
        .build(metadata(None))
        .err()
        .unwrap();
    assert!(matches!(
        e,
        ConfigError::Route(matchit::InsertError::Conflict { with }) if with == "/a"
    ));
}

#[test]
fn patterns_have_at_most_twenty_five_parameters() {
    let pattern = |n: usize| -> String { (0..n).map(|i| format!("/{{p{i}}}")).collect() };
    assert!(is_routable(&pattern(25)));
    assert!(!is_routable(&pattern(26)));
    // Doubled braces are literal, and a catch-all is not counted.
    assert!(is_routable(&"/{{x}}".repeat(60)));
    assert!(is_routable(&format!("{}/{{*rest}}", pattern(25))));
    // Behind a malformed parameter nothing is counted.
    for malformed in ["/{a}{{b}", "/{}", "/{*}", "/{a*}", "/x}", "/{a", "/{a/b}"] {
        let pattern = format!("{malformed}{}", pattern(26));
        assert!(is_routable(&pattern), "{pattern}");
        let e = Guard::<MockClaims>::builder()
            .route(pattern, Rule::public())
            .build(metadata(None))
            .err()
            .unwrap();
        assert!(matches!(
            e,
            ConfigError::Route(matchit::InsertError::InvalidParam)
        ));
    }
    let literal = "/{{x}}".repeat(60);
    let guard = build_guard(Validator::no_token(), vec![(&literal, Rule::public())]);
    assert_eq!(
        guard.guard.rule_for(&"/{x}".repeat(60)).token,
        Rule::<()>::public().token
    );
    let rest = format!("{}/{{*rest}}", pattern(25));
    let guard = build_guard(Validator::no_token(), vec![(&rest, Rule::public())]);
    assert_eq!(
        guard.guard.rule_for(&"/x".repeat(27)).token,
        Rule::<()>::public().token
    );
    let guard = build_guard(Validator::no_token(), vec![(&pattern(25), Rule::public())]);
    assert_eq!(
        guard.guard.rule_for(&"/x".repeat(25)).token,
        Rule::<()>::public().token
    );
}

/// A pattern with too many parameters counts only where the router comes to it.
#[test]
fn overlong_patterns_are_found_in_order() {
    let overlong: String = (0..26).map(|i| format!("/{{p{i}}}")).collect();
    let builder = || Guard::<MockClaims>::builder();
    let built = |b: GuardBuilder<MockClaims>| b.try_build(metadata(None));
    assert!(builder().route(overlong.clone(), Rule::public()).has_overlong_pattern());
    assert!(built(builder().route(overlong.clone(), Rule::public())).is_none());
    assert!(matches!(
        built(builder().route("/{".into(), Rule::public()).route(overlong.clone(), Rule::public())),
        Some(Err(ConfigError::Route(_)))
    ));
    assert!(matches!(
        built(builder().route(overlong, Rule::public()).default(Rule::public().scopes(vec!["s".into()]))),
        Some(Err(ConfigError::PublicRuleWithConstraints(p))) if p == "<default>"
    ));
    let guard = built(builder().strip_prefix("/in".into()).maybe_resource(None)).unwrap().unwrap();
    assert!(guard.describe().contains("strip_prefix: Some(\"/in\")"));
}

/// A token that is forwarded has passed every check of its rule, and a rule that
/// requires one forwards nothing without it.
#[test]
fn forwarded_tokens_pass_every_check() {
    let rule = || {
        Rule::required()
            .audience("aud".into())
            .scopes(owned(&["a", "b"]))
            .check(custom(|t: &ValidatedRequest<MockClaims>| {
                if t.audience.len() == 1 {
                    Ok(())
                } else {
                    Err(CheckError::Forbidden("too many audiences".into()))
                }
            }))
    };
    for scopes in [None, Some("a"), Some("b a")] {
        for audience in [vec![], vec!["aud"], vec!["other"], vec!["x", "aud"]] {
            let claims = MockClaims {
                scopes: scopes.map(String::from),
            };
            let guard = build_guard(
                Validator::valid_with_audience(claims, owned(&audience)),
                vec![("/api", rule())],
            );
            let forwarded = matches!(
                check(&guard, "/api"),
                Outcome::Forward { token: Some(_), .. }
            );
            assert_eq!(
                forwarded,
                scopes == Some("b a") && audience == ["aud"],
                "{scopes:?} {audience:?}"
            );
        }
    }
    let guard = build_guard(Validator::no_token(), vec![("/api", rule())]);
    assert!(matches!(check(&guard, "/api"), Outcome::Deny { .. }));
}

#[test]
fn guards_and_rules_describe_themselves() {
    let rule = Rule::<MockClaims>::required()
        .scopes(owned(&["b", "a\"c"]))
        .audience("aud".into());
    assert_eq!(
        rule.describe(),
        "Rule { token: Required, audiences: [\"aud\"], scopes: [\"b\", \"a\\\"c\"], \
         strip_credentials: true, check: None }"
    );
    assert_eq!(
        Rule::<MockClaims>::public()
            .check(custom(|_: &ValidatedRequest<MockClaims>| Ok(())))
            .strip_credentials(false)
            .describe(),
        "Rule { token: None, audiences: [], scopes: [], strip_credentials: false, \
         check: Some(..) }"
    );
    let guard = build_guard_with_resource(
        Validator::no_token(),
        vec![("/x", rule)],
        "https://api.example.com/v1",
        Some("/proxy"),
    );
    assert_eq!(
        guard.guard.describe(),
        "Guard { scopes_supported: [\"a\\\"c\", \"b\"], \
         base_uri: Some(https://api.example.com/v1), strip_prefix: Some(\"/proxy\"), .. }"
    );
    assert_eq!(
        build_guard(Validator::no_token(), vec![]).guard.describe(),
        "Guard { scopes_supported: [], base_uri: None, strip_prefix: None, .. }"
    );
}

#[test]
fn outcomes_describe_themselves_without_secrets() {
    let guard = build_guard(Validator::no_token(), vec![("/health", Rule::public())]);
    assert_eq!(
        check(&guard, "/health").describe(),
        "Forward { has_token: false, dpop_nonce: false, strip_credentials: true }"
    );
    assert_eq!(
        check(&guard, "/api").describe(),
        "Deny { status: 401, challenges: [\"Bearer\"], dpop_nonce: false }"
    );
}
