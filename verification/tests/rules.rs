//! Rules, scopes and the per-request state of the guard.

use std::sync::Arc;

use huskarl_pingora::resource::proxy::{apply_outcome, Disposition};
use huskarl_pingora::resource::rule::CheckFn;
use huskarl_pingora::resource::scopes::Rfc9068AccessTokenClaims;
use huskarl_pingora::resource::validator::ValidatedRequest;
use huskarl_pingora::{
    AuthCtx, CheckError, HasAuthState, HasScopes, Outcome, Rule, TokenRequirement,
};

fn owned(values: &[&str]) -> Vec<String> {
    values.iter().map(|v| (*v).to_owned()).collect()
}

// ── Rules ────────────────────────────────────────────────────────────────────

#[test]
fn public_rule_defaults() {
    let rule = Rule::<()>::public();
    assert_eq!(rule.token, TokenRequirement::Public);
    assert!(rule.audiences.is_empty());
    assert!(rule.scopes.is_empty());
    assert!(rule.scope_param.is_none());
    assert!(rule.strip_credentials);
    assert!(rule.check.is_none());
}

#[test]
fn optional_rule_defaults() {
    let rule = Rule::<()>::optional();
    assert_eq!(rule.token, TokenRequirement::Optional);
    assert!(rule.strip_credentials);
}

#[test]
fn required_rule_defaults() {
    let rule = Rule::<()>::required();
    assert_eq!(rule.token, TokenRequirement::Required);
    assert!(rule.strip_credentials);
}

#[test]
fn default_is_required() {
    let rule = Rule::<()>::default();
    assert_eq!(rule.token, TokenRequirement::Required);
}

#[test]
fn token_is_required_by_default() {
    assert_eq!(TokenRequirement::default(), TokenRequirement::Required);
}

#[test]
fn scopes_sets_scope_param() {
    let rule = Rule::<()>::required().scopes(owned(&["read", "write"]));
    assert_eq!(rule.scopes, vec!["read", "write"]);
    assert_eq!(rule.scope_param.as_deref(), Some("read write"));
}

#[test]
fn scopes_accumulate_across_calls() {
    let rule = Rule::<()>::required()
        .scopes(owned(&["read"]))
        .scopes(owned(&["write"]));
    assert_eq!(rule.scopes, vec!["read", "write"]);
    assert_eq!(rule.scope_param.as_deref(), Some("read write"));
}

#[test]
fn no_scopes_leave_no_scope_param() {
    let rule = Rule::<()>::required().scopes(Vec::new());
    assert!(rule.scopes.is_empty());
    assert!(rule.scope_param.is_none());
}

#[test]
fn audience_chaining() {
    let rule = Rule::<()>::required()
        .audience("a".into())
        .audience("b".into());
    assert_eq!(rule.audiences, vec!["a", "b"]);
}

#[test]
fn audiences_batch() {
    let rule = Rule::<()>::required().audiences(owned(&["a", "b", "c"]));
    assert_eq!(rule.audiences, vec!["a", "b", "c"]);
}

#[test]
fn strip_credentials_override() {
    let rule = Rule::<()>::required().strip_credentials(false);
    assert!(!rule.strip_credentials);
}

#[test]
fn clone_preserves_fields() {
    let rule = Rule::<()>::required()
        .scopes(owned(&["read"]))
        .audience("aud".into());
    let cloned = rule.clone();
    assert_eq!(cloned.token, rule.token);
    assert_eq!(cloned.scopes, rule.scopes);
    assert_eq!(cloned.audiences, rule.audiences);
    assert_eq!(cloned.strip_credentials, rule.strip_credentials);
}

#[test]
fn closures_are_checks() {
    let check: Arc<dyn CheckFn<()>> =
        Arc::new(|token: &ValidatedRequest<()>| match token.subject.as_deref() {
            Some("alice") => Ok(()),
            _ => Err(CheckError::Forbidden("only alice".into())),
        });
    let rule = Rule::<()>::required().check(check);
    let shared = rule.clone().check.unwrap();
    let mut token = Arc::try_unwrap(validated_request()).unwrap();
    assert!(matches!(shared.call(&token), Err(CheckError::Forbidden(m)) if m == "only alice"));
    token.subject = Some("alice".into());
    assert!(shared.call(&token).is_ok());
}

// ── Scopes ───────────────────────────────────────────────────────────────────

fn claims(scope: Option<&str>) -> Rfc9068AccessTokenClaims<()> {
    Rfc9068AccessTokenClaims {
        client_id: "test".into(),
        auth_time: None,
        acr: None,
        amr: vec![],
        scope: scope.map(String::from),
        extra_claims: (),
    }
}

#[test]
fn no_scope_has_nothing() {
    let c = claims(None);
    assert!(!c.has_scope("read"));
}

#[test]
fn empty_scope_has_nothing() {
    let c = claims(Some(""));
    assert!(!c.has_scope("read"));
}

#[test]
fn single_scope_matches() {
    let c = claims(Some("read"));
    assert!(c.has_scope("read"));
    assert!(!c.has_scope("write"));
}

#[test]
fn multiple_scopes_space_separated() {
    let c = claims(Some("read write admin"));
    assert!(c.has_scope("read"));
    assert!(c.has_scope("write"));
    assert!(c.has_scope("admin"));
    assert!(!c.has_scope("delete"));
}

#[test]
fn partial_match_does_not_count() {
    let c = claims(Some("readonly"));
    assert!(!c.has_scope("read"));
    assert!(c.has_scope("readonly"));
}

#[test]
fn extra_whitespace_handled() {
    let c = claims(Some("read  write"));
    assert!(c.has_scope("read"));
    assert!(c.has_scope("write"));
}

#[test]
fn scopes_split_at_any_whitespace() {
    let c = claims(Some("\tread\u{a0}write\n"));
    assert!(c.has_scope("read"));
    assert!(c.has_scope("write"));
    assert!(!c.has_scope(""));
    assert!(!c.has_scope("read\u{a0}write"));
}

// ── Per-request state ────────────────────────────────────────────────────────

fn validated_request() -> Arc<ValidatedRequest<()>> {
    Arc::new(ValidatedRequest {
        issuer: None,
        subject: None,
        audience: vec![],
        jti: None,
        issued_at: None,
        expiration: None,
        cnf: None,
        claims: (),
        introspection_jwt: None,
    })
}

#[test]
fn new_defaults() {
    let ctx = AuthCtx::<(), ()>::new(());
    assert!(ctx.validated_token().is_none());
    let _: () = ctx.inner;
    assert!(ctx.strip_credentials());
}

#[test]
fn default_defaults() {
    let ctx = AuthCtx::<(), ()>::default();
    assert!(ctx.validated_token().is_none());
    assert!(ctx.strip_credentials());
}

#[test]
fn validated_token_read_write() {
    let mut ctx = AuthCtx::<(), ()>::new(());
    assert!(ctx.validated_token().is_none());

    let token = validated_request();
    *ctx.validated_token_mut() = Some(token.clone());

    assert!(ctx.validated_token().is_some());
    assert!(Arc::ptr_eq(ctx.validated_token().unwrap(), &token));
}

#[test]
fn dpop_nonce_round_trip() {
    let mut ctx = AuthCtx::<(), ()>::new(());
    assert!(ctx.dpop_nonce_mut().is_none());

    *ctx.dpop_nonce_mut() = Some("nonce-123".into());
    assert_eq!(ctx.dpop_nonce_mut().as_deref(), Some("nonce-123"));

    let taken = ctx.dpop_nonce_mut().take();
    assert_eq!(taken.as_deref(), Some("nonce-123"));
    assert!(ctx.dpop_nonce_mut().is_none());
}

#[test]
fn strip_credentials_toggle() {
    let mut ctx = AuthCtx::<(), ()>::new(());
    assert!(ctx.strip_credentials());

    ctx.set_strip_credentials(false);
    assert!(!ctx.strip_credentials());

    ctx.set_strip_credentials(true);
    assert!(ctx.strip_credentials());
}

#[test]
fn inner_context_accessible() {
    let mut ctx = AuthCtx::<String, ()>::new("hello".into());
    assert_eq!(ctx.inner, "hello");
    ctx.inner.push_str(" world");
    assert_eq!(ctx.inner, "hello world");
}

/// A context of one's own, whose state is kept beside other things.
#[derive(Default)]
struct MyCtx {
    token: Option<Arc<ValidatedRequest<()>>>,
    dpop_nonce: Option<String>,
    strip_credentials: bool,
}

impl HasAuthState<()> for MyCtx {
    fn validated_token(&self) -> Option<&Arc<ValidatedRequest<()>>> {
        self.token.as_ref()
    }

    fn validated_token_mut(&mut self) -> &mut Option<Arc<ValidatedRequest<()>>> {
        &mut self.token
    }

    fn dpop_nonce_mut(&mut self) -> &mut Option<String> {
        &mut self.dpop_nonce
    }

    fn strip_credentials(&self) -> bool {
        self.strip_credentials
    }

    fn set_strip_credentials(&mut self, strip: bool) {
        self.strip_credentials = strip;
    }
}

#[test]
fn outcomes_reach_a_context_of_ones_own() {
    let mut ctx = MyCtx {
        strip_credentials: true,
        ..Default::default()
    };
    let done = apply_outcome(
        Outcome::Forward {
            token: Some(validated_request()),
            dpop_nonce: Some("n".into()),
            strip_credentials: false,
        },
        &mut ctx,
    );
    assert!(matches!(done, Disposition::Forward));
    assert!(ctx.validated_token().is_some());
    assert_eq!(ctx.dpop_nonce.as_deref(), Some("n"));
    assert!(!ctx.strip_credentials());
}

#[test]
fn debug_omits_token_details() {
    let mut ctx = AuthCtx::<(), ()>::new(());
    let debug_none = ctx.describe(&format!("{:?}", ctx.inner));
    assert!(debug_none.contains("has_token: false"));

    *ctx.validated_token_mut() = Some(validated_request());
    let debug_some = ctx.describe(&format!("{:?}", ctx.inner));
    assert!(debug_some.contains("has_token: true"));

    *ctx.dpop_nonce_mut() = Some("n".into());
    assert_eq!(
        ctx.describe("()"),
        "AuthCtx { has_token: true, dpop_nonce: Some(\"n\"), strip_credentials: true, inner: () }"
    );
}
