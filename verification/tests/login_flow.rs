//! The login flow: what the proxy does with a request, a callback, a redirect
//! and a response, with a store, a grant and a cipher that need no network.

use std::cell::{Cell, RefCell};

use base64::engine::general_purpose::URL_SAFE_NO_PAD;
use base64::Engine as _;
use huskarl_pingora::headers::ResponseError;
use huskarl_pingora::login::cookie::login_state_cookie_name;
use huskarl_pingora::login::grant::{IdToken, RefreshToken, TokenResponse};
use huskarl_pingora::login::proxy::callback::{
    begin_callback, callback_step, CallbackAction, CallbackEvent, CallbackParams,
};
use huskarl_pingora::login::proxy::filter::{
    filter_step, is_navigation_request, judge, route_request, FilterAction, FilterEvent,
    FilterState, Route, Verdict,
};
use huskarl_pingora::login::proxy::redirect::{
    begin_redirect, redirect_step, RedirectAction, RedirectEvent,
};
use huskarl_pingora::login::proxy::respond::{
    begin_error_page, begin_logout, error_response_head, finish_error_page, finish_logout,
    logout_response, logout_target, persist_action, persist_error, persisted, AnswerAction,
    DeleteEvent, Failure, LogoutEvent, Persist,
};
use huskarl_pingora::login::{
    DefaultErrorPage, ErrorPage, HasLoginSession, LoginConfig, LoginCtx, TokenSession, TokenState,
};
use huskarl_pingora::time::{Duration, SystemTime};
use huskarl_pingora::uri::Uri;
use pingora_http::ResponseHeader;

/// The parts of a URI, as `http` reads them.
fn uri(text: &str) -> Uri {
    let parsed: http::Uri = text.parse().unwrap();
    Uri {
        scheme: parsed.scheme_str().map(str::to_owned),
        authority: parsed.authority().map(|a| a.as_str().to_owned()),
        path: parsed.path().to_owned(),
        query: parsed.query().map(str::to_owned),
    }
}

fn headers(fields: &[(&str, &str)]) -> http::HeaderMap {
    let mut map = http::HeaderMap::new();
    for (name, value) in fields {
        map.append(
            http::HeaderName::from_bytes(name.as_bytes()).unwrap(),
            value.parse().unwrap(),
        );
    }
    map
}

// ── Sessions and their store ─────────────────────────────────────────────────

struct MockSession {
    state: TokenState,
}

impl TokenSession for MockSession {
    fn token_state(&self) -> &TokenState {
        &self.state
    }

    fn set_token_state(&mut self, state: TokenState) {
        self.state = state;
    }
}

fn ago(secs: i128) -> SystemTime {
    SystemTime {
        nanos: SystemTime::now().nanos - secs * 1_000_000_000,
    }
}

fn mock_session(
    token_expiry: Option<SystemTime>,
    refresh_token: Option<&str>,
    created_at: SystemTime,
    last_active: SystemTime,
) -> MockSession {
    MockSession {
        state: TokenState {
            raw_token_response: serde_json::Value::Null,
            token_expiry,
            refresh_token: refresh_token.map(|token| RefreshToken {
                token: token.to_owned(),
                dpop_jkt: None,
            }),
            id_token: None,
            created_at,
            last_active,
        },
    }
}

fn valid_mock_session() -> MockSession {
    mock_session(Some(ago(-3600)), None, ago(0), ago(0))
}

struct MockStore {
    session: RefCell<Option<MockSession>>,
    load_fails: bool,
    delete_fails: bool,
    deleted: Cell<bool>,
    saved: Cell<bool>,
    touched: Cell<bool>,
}

impl MockStore {
    fn empty() -> Self {
        MockStore {
            session: RefCell::new(None),
            load_fails: false,
            delete_fails: false,
            deleted: Cell::new(false),
            saved: Cell::new(false),
            touched: Cell::new(false),
        }
    }

    fn delete(&self, _: MockSession, mut response: ResponseHeader) -> DeleteEvent {
        if self.delete_fails {
            return DeleteEvent::DeleteFailed("store is down".into());
        }
        self.deleted.set(true);
        response.append_header("x-deleted", "yes").unwrap();
        DeleteEvent::Deleted(response)
    }

    fn with_session(session: MockSession) -> Self {
        let store = Self::empty();
        *store.session.borrow_mut() = Some(session);
        store
    }
}

// ── The cipher and the grant ─────────────────────────────────────────────────

fn seal(plaintext: &str, aad: &str) -> Vec<u8> {
    format!("{aad}\0{plaintext}").into_bytes()
}

fn unseal(bundle: &[u8], aad: &str) -> Option<String> {
    let text = String::from_utf8(bundle.to_vec()).ok()?;
    text.strip_prefix(&format!("{aad}\0")).map(str::to_owned)
}

struct Grant {
    authorization_url: &'static str,
    state: &'static str,
    starts: bool,
    completes: bool,
    refreshed: Option<TokenResponse>,
}

fn grant(authorization_url: &'static str, state: &'static str) -> Grant {
    Grant {
        authorization_url,
        state,
        starts: true,
        completes: false,
        refreshed: None,
    }
}

// ── The proxy ────────────────────────────────────────────────────────────────

fn default_policy_config() -> LoginConfig {
    LoginConfig::builder()
        .callback_path("/callback".into())
        .scopes(vec![])
        .base_url(uri("https://app.example.com"))
        .build()
        .unwrap()
}

struct Proxy {
    config: LoginConfig,
    grant: RefCell<Grant>,
    store: MockStore,
}

/// The text of an error, with its cause.
fn said(e: ResponseError) -> String {
    match e.cause {
        Some(cause) => format!("{} because {cause}", e.context),
        None => e.context,
    }
}

const BAD_INSERT: &str = " InvalidHTTPHeader context: invalid value while insert";

enum Reply {
    Forwarded,
    Sent(ResponseHeader, String),
    Aborted(String),
}

impl Proxy {
    fn new(store: MockStore, config: LoginConfig, grant: Grant) -> Self {
        Proxy {
            config,
            grant: RefCell::new(grant),
            store,
        }
    }

    fn policy(store: MockStore, config: LoginConfig) -> Self {
        Self::new(
            store,
            config,
            grant("https://auth.example.com/authorize", "unused"),
        )
    }

    fn error_response(&self, failure: Failure, expired: Option<MockSession>) -> Reply {
        let page = DefaultErrorPage.render(failure.status, &failure.message);
        let mut action = begin_error_page(failure.status, page.content_type, expired);
        loop {
            action = match action {
                AnswerAction::Delete { session, response } => {
                    finish_error_page(self.store.delete(session, response))
                }
                AnswerAction::Send(head) => {
                    return Reply::Sent(head, String::from_utf8(page.body).unwrap());
                }
                AnswerAction::Abort(e) => return Reply::Aborted(said(e)),
            };
        }
    }

    fn logout(&self) -> Reply {
        let event = if self.store.load_fails {
            LogoutEvent::LoadFailed
        } else {
            LogoutEvent::Loaded(self.store.session.borrow_mut().take())
        };
        let mut action = begin_logout(&self.config, event);
        loop {
            action = match action {
                AnswerAction::Delete { session, response } => {
                    finish_logout(self.store.delete(session, response))
                }
                AnswerAction::Send(head) => return Reply::Sent(head, String::new()),
                AnswerAction::Abort(e) => return Reply::Aborted(said(e)),
            };
        }
    }

    fn redirect(
        &self,
        target: &str,
        expired: Option<MockSession>,
    ) -> Result<ResponseHeader, String> {
        let mut state = begin_redirect(&self.config, &uri(target), expired);
        let mut event = if self.grant.borrow().starts {
            RedirectEvent::Started {
                state: self.grant.borrow().state.to_owned(),
                location: self.grant.borrow().authorization_url.to_owned(),
            }
        } else {
            RedirectEvent::StartFailed("no route to host".into())
        };
        loop {
            let (next, action) = redirect_step(&self.config, state, event);
            event = match action {
                RedirectAction::Seal { original_url, aad } => {
                    RedirectEvent::Sealed(seal(&original_url, &aad))
                }
                RedirectAction::Delete { expired, response } => {
                    match self.store.delete(expired, response) {
                        DeleteEvent::Deleted(response) => RedirectEvent::Deleted(response),
                        DeleteEvent::DeleteFailed(e) => RedirectEvent::DeleteFailed(e),
                    }
                }
                RedirectAction::Send(head) => return Ok(head),
                RedirectAction::Abort(e) => return Err(said(e)),
            };
            state = next.unwrap();
        }
    }

    fn callback(&self, query: Option<&str>, headers: &http::HeaderMap) -> Reply {
        let (mut state, mut action) = begin_callback(&self.config, query, headers);
        let mut plaintext = None;
        loop {
            let event = match action {
                CallbackAction::Unseal { bundle, aad } => {
                    plaintext = unseal(&bundle, &aad);
                    match plaintext {
                        Some(_) => CallbackEvent::Unsealed,
                        None => CallbackEvent::UnsealFailed,
                    }
                }
                CallbackAction::ReadLoginState => match plaintext.take() {
                    Some(url) if url.starts_with('/') || url.starts_with("http") => {
                        CallbackEvent::Read(url)
                    }
                    _ => CallbackEvent::ReadFailed,
                },
                CallbackAction::Exchange { .. } => {
                    if self.grant.borrow().completes {
                        CallbackEvent::Exchanged
                    } else {
                        CallbackEvent::ExchangeFailed
                    }
                }
                CallbackAction::CreateSession => CallbackEvent::Created(valid_mock_session()),
                CallbackAction::SaveSession { session, mut response } => {
                    assert!(!self.store.saved.get());
                    self.store.saved.set(true);
                    *self.store.session.borrow_mut() = Some(session);
                    response.append_header("x-saved", "yes").unwrap();
                    CallbackEvent::Saved(response)
                }
                CallbackAction::Send(head) => return Reply::Sent(head, String::new()),
                CallbackAction::Fail(failure) => return self.error_response(failure, None),
                CallbackAction::Abort(e) => return Reply::Aborted(said(e)),
            };
            (state, action) = callback_step(&self.config, state.unwrap(), event);
        }
    }

    fn request_filter(
        &self,
        method: &str,
        target: &str,
        fields: &[(&str, &str)],
        ctx: &mut LoginCtx<(), MockSession>,
    ) -> Reply {
        let headers = headers(fields);
        let request = uri(target);
        match route_request(&self.config, &request.path, method, &headers) {
            Route::Callback => return self.callback(request.query.as_deref(), &headers),
            Route::Logout => return self.logout(),
            Route::Preflight => return Reply::Forwarded,
            Route::Session => {}
        }
        let navigation = is_navigation_request(&headers);
        let mut state = FilterState::Loading;
        let mut event = if self.store.load_fails {
            FilterEvent::LoadFailed
        } else {
            FilterEvent::Loaded(self.store.session.borrow_mut().take())
        };
        let mut sent = None;
        loop {
            let now = SystemTime::now();
            let (next, action) = filter_step(&self.config, navigation, now, state, event, ctx);
            event = match action {
                FilterAction::Refresh(_) => match self.grant.borrow_mut().refreshed.take() {
                    Some(response) => FilterEvent::Refreshed(response),
                    None => FilterEvent::RefreshFailed,
                },
                FilterAction::Forward => return Reply::Forwarded,
                FilterAction::Redirect { expired } => match self.redirect(target, expired) {
                    Ok(head) => {
                        sent = Some(head);
                        FilterEvent::Redirected
                    }
                    Err(_) => FilterEvent::RedirectFailed,
                },
                FilterAction::Respond { failure, expired } => {
                    return self.error_response(failure, expired);
                }
                FilterAction::Handled => return Reply::Sent(sent.unwrap(), String::new()),
            };
            state = next.unwrap();
        }
    }

    fn upstream_response_filter(&self, ctx: &mut LoginCtx<(), MockSession>) {
        let action = persist_action(ctx);
        match action {
            Persist::Delete => self.store.deleted.set(true),
            Persist::Save => self.store.saved.set(true),
            Persist::Touch => self.store.touched.set(true),
            Persist::Drop | Persist::Clean | Persist::Nothing => {}
        }
        persisted(action, ctx);
    }
}

fn new_ctx() -> LoginCtx<(), MockSession> {
    LoginCtx::new(())
}

fn forwarded(reply: &Reply) -> bool {
    matches!(reply, Reply::Forwarded)
}

fn sent(reply: Reply) -> (ResponseHeader, String) {
    match reply {
        Reply::Sent(head, body) => (head, body),
        Reply::Forwarded => panic!("forwarded"),
        Reply::Aborted(context) => panic!("aborted: {context}"),
    }
}

fn field<'a>(head: &'a ResponseHeader, name: &str) -> Option<&'a str> {
    head.headers.get(name).map(|v| v.to_str().unwrap())
}

const API: &[(&str, &str)] = &[("accept", "application/json")];
const PAGE: &[(&str, &str)] = &[("sec-fetch-mode", "navigate")];

// ── Navigation ───────────────────────────────────────────────────────────────

#[test]
fn navigation_with_sec_fetch_mode_navigate() {
    assert!(is_navigation_request(&headers(&[("Sec-Fetch-Mode", "navigate")])));
}

#[test]
fn non_navigation_with_sec_fetch_mode_cors() {
    assert!(!is_navigation_request(&headers(&[("Sec-Fetch-Mode", "cors")])));
}

#[test]
fn non_navigation_with_sec_fetch_mode_no_cors() {
    assert!(!is_navigation_request(&headers(&[("Sec-Fetch-Mode", "no-cors")])));
}

#[test]
fn fallback_accept_html_is_navigation() {
    assert!(is_navigation_request(&headers(&[(
        "Accept",
        "text/html,application/xhtml+xml"
    )])));
}

#[test]
fn fallback_accept_json_is_not_navigation() {
    assert!(!is_navigation_request(&headers(&[("Accept", "application/json")])));
}

#[test]
fn no_accept_no_sec_fetch_is_not_navigation() {
    assert!(!is_navigation_request(&headers(&[])));
}

#[test]
fn sec_fetch_mode_takes_precedence_over_accept() {
    // Sec-Fetch-Mode says "cors" but Accept has text/html: the mode wins.
    assert!(!is_navigation_request(&headers(&[
        ("Sec-Fetch-Mode", "cors"),
        ("Accept", "text/html")
    ])));
}

#[test]
fn unreadable_accept_is_not_navigation() {
    let mut map = http::HeaderMap::new();
    map.insert(
        http::header::ACCEPT,
        http::HeaderValue::from_bytes(b"text/html\xff").unwrap(),
    );
    assert!(!is_navigation_request(&map));
}

// ── Session policies ─────────────────────────────────────────────────────────

#[test]
fn policy_valid_session_forwards() {
    let store = MockStore::with_session(valid_mock_session());
    let proxy = Proxy::policy(store, default_policy_config());
    let mut ctx = new_ctx();

    let reply = proxy.request_filter("GET", "/api", API, &mut ctx);

    assert!(forwarded(&reply));
    assert!(ctx.login_session().is_some());
}

#[test]
fn policy_max_lifetime_exceeded_expires() {
    let store =
        MockStore::with_session(mock_session(Some(ago(-3600)), None, ago(7200), ago(0)));
    let config = LoginConfig::builder()
        .callback_path("/callback".into())
        .scopes(vec![])
        .base_url(uri("https://app.example.com"))
        .max_lifetime(Duration::from_secs(3600))
        .build()
        .unwrap();
    let proxy = Proxy::policy(store, config);

    let reply = proxy.request_filter("GET", "/api", API, &mut new_ctx());

    let (head, body) = sent(reply);
    assert_eq!(head.status.as_u16(), 401);
    assert!(body.contains("session expired"));
    assert!(proxy.store.deleted.get());
}

#[test]
fn policy_idle_timeout_exceeded_expires() {
    let store =
        MockStore::with_session(mock_session(Some(ago(-3600)), None, ago(0), ago(1800)));
    let config = LoginConfig::builder()
        .callback_path("/callback".into())
        .scopes(vec![])
        .base_url(uri("https://app.example.com"))
        .idle_timeout(Duration::from_secs(900))
        .build()
        .unwrap();
    let proxy = Proxy::policy(store, config);

    let reply = proxy.request_filter("GET", "/api", API, &mut new_ctx());

    assert!(!forwarded(&reply));
    assert!(proxy.store.deleted.get());
}

#[test]
fn policy_token_expired_no_refresh_token_expires() {
    let store = MockStore::with_session(mock_session(Some(ago(60)), None, ago(0), ago(0)));
    let proxy = Proxy::policy(store, default_policy_config());

    let reply = proxy.request_filter("GET", "/api", API, &mut new_ctx());

    assert!(!forwarded(&reply));
    assert!(proxy.store.deleted.get());
}

#[test]
fn policy_token_expired_refresh_fails_expires() {
    let store = MockStore::with_session(mock_session(
        Some(ago(60)),
        Some("test_refresh"),
        ago(0),
        ago(0),
    ));
    let proxy = Proxy::policy(store, default_policy_config());

    let reply = proxy.request_filter("GET", "/api", API, &mut new_ctx());

    assert!(!forwarded(&reply));
    assert!(proxy.store.deleted.get());
}

#[test]
fn policy_cors_preflight_bypasses_session() {
    let proxy = Proxy::policy(MockStore::empty(), default_policy_config());

    let reply = proxy.request_filter(
        "OPTIONS",
        "/api",
        &[("access-control-request-method", "POST")],
        &mut new_ctx(),
    );

    assert!(forwarded(&reply));
}

#[test]
fn policy_no_session_returns_401() {
    let proxy = Proxy::policy(MockStore::empty(), default_policy_config());

    let reply = proxy.request_filter("GET", "/api", API, &mut new_ctx());

    let (head, body) = sent(reply);
    assert_eq!(head.status.as_u16(), 401);
    assert!(body.contains("authentication required"));
    assert_eq!(field(&head, "cache-control"), Some("no-store"));
    assert_eq!(field(&head, "content-type"), Some("text/html; charset=utf-8"));
}

#[test]
fn load_failure_is_an_error_even_for_navigations() {
    let mut store = MockStore::empty();
    store.load_fails = true;
    let proxy = Proxy::policy(store, default_policy_config());
    let (head, body) = sent(proxy.request_filter("GET", "/", PAGE, &mut new_ctx()));
    assert_eq!(head.status.as_u16(), 500);
    assert!(body.contains("failed to load session"));
}

#[test]
fn refreshed_session_is_forwarded_and_saved() {
    let old = ago(500);
    let store =
        MockStore::with_session(mock_session(Some(ago(60)), Some("old"), old, ago(100)));
    let mut g = grant("https://auth.example.com/authorize", "s");
    g.refreshed = Some(TokenResponse {
        raw: Ok(serde_json::from_str("{\"expires_in\":300}").unwrap()),
        refresh_token: None,
        id_token: Some(IdToken {
            token: "unused".into(),
        }),
    });
    let proxy = Proxy::new(store, default_policy_config(), g);
    let mut ctx = new_ctx();

    assert!(forwarded(&proxy.request_filter("GET", "/api", API, &mut ctx)));

    let session = ctx.login_session().unwrap();
    assert_eq!(session.created_at(), old);
    assert_eq!(session.refresh_token().unwrap().token, "old");
    assert!(session.id_token().is_none());
    let expiry = session.token_expiry().unwrap();
    assert_eq!(expiry.nanos - session.last_active().nanos, 300_000_000_000);
    assert!(ctx.is_session_dirty());
    proxy.upstream_response_filter(&mut ctx);
    assert!(proxy.store.saved.get() && !proxy.store.deleted.get());
}

/// The times of a forwarded session are those of the clock reading.
#[test]
fn forwarded_sessions_bear_the_time_of_the_step() {
    let config = default_policy_config();
    let at = |secs: u64| SystemTime::from_unix(secs);
    let step = |now, state, event, ctx: &mut LoginCtx<(), MockSession>| {
        filter_step(&config, false, now, state, event, ctx)
    };
    let mut ctx = new_ctx();
    let session = mock_session(Some(at(900)), Some("r"), at(100), at(200));
    let event = FilterEvent::Loaded(Some(session));
    let (next, action) = step(at(300), FilterState::Loading, event, &mut ctx);
    assert!(next.is_none() && matches!(action, FilterAction::Forward));
    let stored = ctx.login_session().unwrap();
    assert_eq!(stored.last_active(), at(300));
    assert_eq!(stored.created_at(), at(100));
    assert_eq!(stored.token_expiry(), Some(at(900)));
    assert!(!ctx.is_session_dirty());

    let mut ctx = new_ctx();
    let session = mock_session(Some(at(900)), Some("r"), at(100), at(200));
    let event = FilterEvent::Loaded(Some(session));
    let (next, action) = step(at(1000), FilterState::Loading, event, &mut ctx);
    assert!(matches!(action, FilterAction::Refresh(t) if t.token == "r"));
    let event = FilterEvent::Refreshed(TokenResponse {
        raw: Ok(serde_json::from_str("{\"expires_in\":60}").unwrap()),
        refresh_token: None,
        id_token: None,
    });
    let (next, action) = step(at(1002), next.unwrap(), event, &mut ctx);
    assert!(next.is_none() && matches!(action, FilterAction::Forward));
    let stored = ctx.login_session().unwrap();
    assert_eq!(stored.last_active(), at(1002));
    assert_eq!(stored.token_expiry(), Some(at(1062)));
    assert!(ctx.is_session_dirty());
}

/// Times at and around the limits.
#[test]
fn sessions_are_judged_to_the_nanosecond() {
    let config = LoginConfig::builder()
        .callback_path("/callback".into())
        .scopes(vec![])
        .base_url(uri("https://app.example.com"))
        .max_lifetime(Duration::from_secs(100))
        .idle_timeout(Duration::from_secs(10))
        .token_refresh_margin(Duration::from_secs(5))
        .build()
        .unwrap();
    let at = |nanos: i128| SystemTime { nanos };
    let second: i128 = 1_000_000_000;
    let now = at(1000 * second);
    let verdict = |expiry: Option<i128>, created: i128, active: i128| {
        let session = mock_session(expiry.map(at), None, at(created), at(active));
        judge(&config, &session.state, now)
    };
    let fresh = 1000 * second;
    assert_eq!(verdict(None, 900 * second, fresh), Verdict::Live);
    assert_eq!(verdict(None, 900 * second - 1, fresh), Verdict::Expired);
    assert_eq!(verdict(None, fresh, 990 * second), Verdict::Live);
    assert_eq!(verdict(None, fresh, 990 * second - 1), Verdict::Expired);
    assert_eq!(verdict(Some(1005 * second), fresh, fresh), Verdict::Stale);
    assert_eq!(verdict(Some(1005 * second + 1), fresh, fresh), Verdict::Live);
    // A session that is stale and too old is expired, and stays so.
    assert_eq!(verdict(Some(0), 0, fresh), Verdict::Expired);
    let session = mock_session(None, None, at(900 * second - 1), now);
    assert_eq!(
        judge(&config, &session.state, at(2000 * second)),
        Verdict::Expired
    );
    // Times ahead of the clock count as no time.
    assert_eq!(verdict(None, 2000 * second, 2000 * second), Verdict::Live);
}

// ── Routes ───────────────────────────────────────────────────────────────────

#[test]
fn requests_are_routed() {
    let config = LoginConfig::builder()
        .callback_path("/callback".into())
        .scopes(vec![])
        .base_url(uri("https://app.example.com"))
        .logout_path("/logout".into())
        .build()
        .unwrap();
    let none = headers(&[]);
    let preflight = headers(&[("access-control-request-method", "POST")]);
    let route = |path: &str, method: &str, headers: &http::HeaderMap| {
        route_request(&config, path, method, headers)
    };
    assert_eq!(route("/callback", "GET", &none), Route::Callback);
    assert_eq!(route("/callback", "OPTIONS", &preflight), Route::Callback);
    assert_eq!(route("/callback/", "GET", &none), Route::Session);
    assert_eq!(route("/logout", "POST", &none), Route::Logout);
    assert_eq!(route("/x", "OPTIONS", &preflight), Route::Preflight);
    assert_eq!(route("/x", "OPTIONS", &none), Route::Session);
    assert_eq!(route("/x", "GET", &preflight), Route::Session);
    assert_eq!(
        route_request(&default_policy_config(), "/logout", "GET", &none),
        Route::Session
    );
}

// ── Redirects ────────────────────────────────────────────────────────────────

#[test]
fn redirect_no_session_navigation_sends_302() {
    let g = grant("https://auth.example.com/authorize?client_id=test", "s1");
    let proxy = Proxy::new(MockStore::empty(), default_policy_config(), g);

    let (head, _) = sent(proxy.request_filter("GET", "/protected", PAGE, &mut new_ctx()));

    assert_eq!(head.status.as_u16(), 302);
    assert_eq!(
        field(&head, "location"),
        Some("https://auth.example.com/authorize?client_id=test")
    );
    let login_cookie = field(&head, "set-cookie").unwrap();
    assert!(login_cookie.contains("huskarl_login_"));
    assert!(login_cookie.contains("HttpOnly"));
    assert!(login_cookie.contains("SameSite=Lax"));
    assert!(login_cookie.contains("Path=/"));
    assert!(login_cookie.contains("Max-Age=600"));
    assert!(login_cookie.contains("Secure"));
}

#[test]
fn redirect_omits_secure_flag_when_disabled() {
    let config = LoginConfig::builder()
        .callback_path("/callback".into())
        .scopes(vec![])
        .base_url(uri("https://app.example.com"))
        .secure(false)
        .build()
        .unwrap();
    let g = grant("https://auth.example.com/authorize", "s2");
    let proxy = Proxy::new(MockStore::empty(), config, g);

    let (head, _) = sent(proxy.request_filter("GET", "/", PAGE, &mut new_ctx()));

    assert_eq!(head.status.as_u16(), 302);
    let login_cookie = field(&head, "set-cookie").unwrap();
    assert!(login_cookie.contains("huskarl_login_"));
    assert!(!login_cookie.contains("Secure"));
    assert!(!login_cookie.contains("__Host-"));
    assert!(!login_cookie.contains("__Secure-"));
}

#[test]
fn redirect_preserves_original_url_in_cookie() {
    let state = "roundtrip";
    let g = grant("https://auth.example.com/authorize", state);
    let proxy = Proxy::new(MockStore::empty(), default_policy_config(), g);

    let (head, _) =
        sent(proxy.request_filter("GET", "/app/page?foo=bar&baz=1", PAGE, &mut new_ctx()));

    let login_cookie = field(&head, "set-cookie").unwrap();
    let value_part = login_cookie
        .split_once('=')
        .unwrap()
        .1
        .split(';')
        .next()
        .unwrap();
    let bundle = URL_SAFE_NO_PAD.decode(value_part).unwrap();
    assert_eq!(
        unseal(&bundle, state).as_deref(),
        Some("https://app.example.com/app/page?foo=bar&baz=1")
    );
}

#[test]
fn redirect_outside_the_prefix_returns_to_the_origin() {
    let config = LoginConfig::builder()
        .callback_path("/in/callback".into())
        .scopes(vec![])
        .base_url(uri("https://app.example.com/base"))
        .strip_prefix("/in".into())
        .build()
        .unwrap();
    let g = grant("https://auth.example.com/authorize", "s");
    let proxy = Proxy::new(MockStore::empty(), config, g);
    let head = proxy.redirect("/other?x", None).unwrap();
    assert_eq!(
        field(&head, "set-cookie").unwrap(),
        format!(
            "__Secure-huskarl_login_s={}; HttpOnly; SameSite=Lax; Path=/base/callback; \
             Max-Age=600; Secure",
            URL_SAFE_NO_PAD.encode(seal("https://app.example.com/", "s"))
        )
    );
}

#[test]
fn expired_session_navigation_redirects_to_as() {
    let store =
        MockStore::with_session(mock_session(Some(ago(-3600)), None, ago(7200), ago(0)));
    let config = LoginConfig::builder()
        .callback_path("/callback".into())
        .scopes(vec![])
        .base_url(uri("https://app.example.com"))
        .max_lifetime(Duration::from_secs(3600))
        .build()
        .unwrap();
    let g = grant("https://auth.example.com/authorize", "expired_s");
    let proxy = Proxy::new(store, config, g);

    let (head, _) = sent(proxy.request_filter("GET", "/dashboard", PAGE, &mut new_ctx()));

    assert!(proxy.store.deleted.get());
    assert_eq!(head.status.as_u16(), 302);
}

#[test]
fn failed_redirects_are_answered_with_500() {
    let mut g = grant("https://auth.example.com/authorize", "s");
    g.starts = false;
    let proxy = Proxy::new(MockStore::empty(), default_policy_config(), g);
    assert_eq!(
        proxy.redirect("/x", None).err(),
        Some("authorization request failed because no route to host".to_owned())
    );
    let (head, body) = sent(proxy.request_filter("GET", "/x", PAGE, &mut new_ctx()));
    assert_eq!(head.status.as_u16(), 500);
    assert!(body.contains("failed to start login"));

    let g = grant("https://auth.example.com/\n", "s");
    let proxy = Proxy::new(MockStore::empty(), default_policy_config(), g);
    assert_eq!(
        proxy.redirect("/x", None).err(),
        Some(format!("failed to set Location header because {BAD_INSERT}"))
    );
    let g = grant("https://auth.example.com/", "s\n");
    let proxy = Proxy::new(MockStore::empty(), default_policy_config(), g);
    assert_eq!(
        proxy.redirect("/x", None).err(),
        Some(format!("failed to set login state cookie header because {BAD_INSERT}"))
    );

    let config = default_policy_config();
    let start = || RedirectEvent::Started {
        state: "s".into(),
        location: "https://auth.example.com/".into(),
    };
    for (event, reason) in [
        (
            RedirectEvent::SerializeFailed("key must be a string".into()),
            "failed to serialize login state: key must be a string",
        ),
        (
            RedirectEvent::SealFailed("no key".into()),
            "failed to seal login state cookie because no key",
        ),
    ] {
        let begun = begin_redirect::<MockSession>(&config, &uri("/x"), None);
        let (state, _) = redirect_step(&config, begun, start());
        match redirect_step(&config, state.unwrap(), event) {
            (None, RedirectAction::Abort(e)) => assert_eq!(said(e), reason),
            _ => panic!("not aborted"),
        }
    }
}

// ── Callbacks ────────────────────────────────────────────────────────────────

/// Sends a GET to the given callback path and returns the answer.
fn callback_answer(target: &str) -> (u16, String) {
    let proxy = Proxy::policy(MockStore::empty(), default_policy_config());
    let (head, body) = sent(proxy.request_filter("GET", target, &[], &mut new_ctx()));
    (head.status.as_u16(), body)
}

/// Sends a callback with code and state, and a login cookie.
fn callback_with_cookie(state: &'static str, cookie_value: &str) -> (u16, String) {
    let cookie_name = login_state_cookie_name(state, true, "/callback");
    let g = grant("https://auth.example.com/authorize", state);
    let proxy = Proxy::new(MockStore::empty(), default_policy_config(), g);
    let (head, body) = sent(proxy.request_filter(
        "GET",
        &format!("/callback?code=authcode&state={state}"),
        &[("cookie", &format!("{cookie_name}={cookie_value}"))],
        &mut new_ctx(),
    ));
    (head.status.as_u16(), body)
}

fn sealed_cookie(state: &str, original_url: &str) -> String {
    URL_SAFE_NO_PAD.encode(seal(original_url, state))
}

#[test]
fn callback_missing_code_returns_400() {
    assert_eq!(callback_answer("/callback?state=abc").0, 400);
}

#[test]
fn callback_missing_state_returns_400() {
    assert_eq!(callback_answer("/callback?code=authcode").0, 400);
}

#[test]
fn callback_no_params_returns_400() {
    let (status, body) = callback_answer("/callback");
    assert_eq!(status, 400);
    assert!(body.contains("missing code or state"));
}

#[test]
fn callback_no_cookie_returns_400() {
    let (status, body) = callback_answer("/callback?code=authcode&state=abc");
    assert_eq!(status, 400);
    assert!(body.contains("invalid or missing state"));
}

#[test]
fn callback_malformed_base64_cookie_returns_400() {
    let (status, body) = callback_with_cookie("b64bad", "not-valid!!!base64");
    assert_eq!(status, 400);
    assert!(body.contains("malformed state cookie"));
}

#[test]
fn callback_tampered_cookie_returns_400() {
    let fake = URL_SAFE_NO_PAD.encode(b"this is not an AEAD ciphertext bundle");
    let (status, body) = callback_with_cookie("tampered", &fake);
    assert_eq!(status, 400);
    assert!(body.contains("state cookie decryption failed"));
}

#[test]
fn callback_mismatched_state_aad_returns_400() {
    // Sealed with "right", presented under state "wrong".
    let sealed = sealed_cookie("right", "/original");
    assert_eq!(callback_with_cookie("wrong", &sealed).0, 400);
}

#[test]
fn callback_token_exchange_fails_returns_502() {
    let sealed = sealed_cookie("exchange_fail", "/original");
    let (status, body) = callback_with_cookie("exchange_fail", &sealed);
    assert_eq!(status, 502);
    assert!(body.contains("token exchange failed"));
}

#[test]
fn callback_corrupt_login_state_returns_500() {
    let sealed = sealed_cookie("s", "corrupt");
    let (status, body) = callback_with_cookie("s", &sealed);
    assert_eq!(status, 500);
    assert!(body.contains("corrupt login state"));
}

#[test]
fn callback_errors_of_the_server_return_403() {
    let (status, body) = callback_answer("/callback?error=access_denied&code=c&state=s");
    assert_eq!(status, 403);
    assert!(body.contains("authorization denied (access_denied)"));
    let (status, body) = callback_answer("/callback?error=x&error_description=not+you%21");
    assert_eq!(status, 403);
    assert!(body.contains("authorization denied: not you!"));
}

#[test]
fn callback_failures_after_the_exchange_return_500() {
    let config = default_policy_config();
    let cookie_name = login_state_cookie_name("s", true, "/callback");
    let map = headers(&[(
        "cookie",
        &format!("{cookie_name}={}", sealed_cookie("s", "/o")),
    )]);
    let advance = |events: Vec<CallbackEvent<u8>>| {
        let (mut state, mut action) = begin_callback(&config, Some("code=c&state=s"), &map);
        for event in events {
            (state, action) = callback_step(&config, state.unwrap(), event);
        }
        assert!(state.is_none());
        action
    };
    let before = || {
        vec![
            CallbackEvent::Unsealed,
            CallbackEvent::Read("/o".into()),
            CallbackEvent::Exchanged,
        ]
    };
    let mut events = before();
    events.push(CallbackEvent::CreateFailed);
    assert!(matches!(
        advance(events),
        CallbackAction::Fail(f) if f.status == 500 && f.message == "failed to create session"
    ));
    let mut events = before();
    events.push(CallbackEvent::Created(1));
    events.push(CallbackEvent::SaveFailed);
    assert!(matches!(
        advance(events),
        CallbackAction::Fail(f) if f.status == 500 && f.message == "failed to save session"
    ));
    let events = vec![
        CallbackEvent::Unsealed,
        CallbackEvent::Read("/o\n".into()),
        CallbackEvent::Exchanged,
        CallbackEvent::Created(1),
    ];
    assert!(matches!(
        advance(events),
        CallbackAction::Abort(e) if e.context == "failed to set Location header"
    ));
}

/// What the redirect sealed the callback unseals, and the browser is sent back
/// to where it came from, with the login cookie cleared.
#[test]
fn callback_undoes_the_redirect() {
    let mut g = grant("https://auth.example.com/authorize", "s");
    g.completes = true;
    let proxy = Proxy::new(MockStore::empty(), default_policy_config(), g);
    let (head, _) = sent(proxy.request_filter("GET", "/page?a=b", PAGE, &mut new_ctx()));
    let cookie = field(&head, "set-cookie").unwrap();
    let pair = cookie.split("; ").next().unwrap();
    let (head, _) = sent(proxy.request_filter(
        "GET",
        "/callback?state=s&code=c",
        &[("cookie", &format!("other=1; {pair}"))],
        &mut new_ctx(),
    ));
    assert!(proxy.store.saved.get());
    assert!(proxy.store.session.borrow().is_some());
    assert_eq!(field(&head, "x-saved"), Some("yes"));
    assert_eq!(head.status.as_u16(), 302);
    assert_eq!(
        field(&head, "location"),
        Some("https://app.example.com/page?a=b")
    );
    assert_eq!(
        field(&head, "set-cookie"),
        Some(
            "__Secure-huskarl_login_s=; HttpOnly; SameSite=Lax; Path=/callback; \
             Max-Age=0; Secure"
        )
    );
}

#[test]
fn callback_parameters_are_read_from_the_query() {
    let params = CallbackParams::from_query("code=a%2Bb&state=s+t&iss=https%3A%2F%2Fi&x=y");
    assert_eq!(params.code.as_deref(), Some("a+b"));
    assert_eq!(params.state.as_deref(), Some("s t"));
    assert_eq!(params.iss.as_deref(), Some("https://i"));
    assert!(params.error.is_none() && params.error_description.is_none());
    // An empty value is a value; a repeated parameter makes the query unusable.
    let params = CallbackParams::from_query("code=&state=s");
    assert_eq!(params.code.as_deref(), Some(""));
    let params = CallbackParams::from_query("code=a&state=s&code=b");
    assert!(params.code.is_none() && params.state.is_none());
    let params = CallbackParams::from_query("code=a&x=1&x=2");
    assert_eq!(params.code.as_deref(), Some("a"));
    let pairs = vec![("error".to_owned(), "e".to_owned())];
    assert_eq!(CallbackParams::from_pairs(&pairs).error.as_deref(), Some("e"));
}

// ── Logout ───────────────────────────────────────────────────────────────────

#[test]
fn logout_redirects_and_deletes() {
    let builder = || {
        LoginConfig::builder()
            .callback_path("/callback".into())
            .scopes(vec![])
            .base_url(uri("https://app.example.com/base"))
            .logout_path("/logout".into())
    };
    let session = || {
        let mut session = valid_mock_session();
        session.state.id_token = Some(IdToken {
            token: "id.tok".into(),
        });
        session
    };
    let logout = |config: LoginConfig, store: MockStore| {
        let proxy = Proxy::policy(store, config);
        let (head, _) = sent(proxy.request_filter("GET", "/logout", &[], &mut new_ctx()));
        assert_eq!(head.status.as_u16(), 302);
        assert_eq!(field(&head, "cache-control"), Some("no-store"));
        let location = field(&head, "location").unwrap().to_owned();
        (location, proxy.store.deleted.get())
    };
    assert_eq!(
        logout(builder().build().unwrap(), MockStore::empty()),
        ("https://app.example.com/base".to_owned(), false)
    );
    let config = builder()
        .post_logout_redirect_uri("https://bye.example.com/".into())
        .build()
        .unwrap();
    assert_eq!(
        logout(config, MockStore::with_session(session())),
        ("https://bye.example.com/".to_owned(), true)
    );
    let config = builder()
        .end_session_endpoint(uri("https://auth.example.com/end?x=1"))
        .build()
        .unwrap();
    assert_eq!(
        logout(config, MockStore::with_session(session())),
        (
            "https://auth.example.com/end?x=1&id_token_hint=id.tok".to_owned(),
            true
        )
    );
    let config = builder()
        .end_session_endpoint(uri("https://auth.example.com/end?x=1"))
        .post_logout_redirect_uri("https://bye.example.com/".into())
        .build()
        .unwrap();
    assert_eq!(
        logout(config, MockStore::with_session(session())),
        (
            "https://auth.example.com/end?x=1&id_token_hint=id.tok\
             &post_logout_redirect_uri=https%3A%2F%2Fbye.example.com%2F"
                .to_owned(),
            true
        )
    );
}

#[test]
fn logout_without_session_leads_to_the_bare_endpoint() {
    let config = LoginConfig::builder()
        .callback_path("/callback".into())
        .scopes(vec![])
        .base_url(uri("https://app.example.com"))
        .logout_path("/logout".into())
        .end_session_endpoint(uri("https://auth.example.com/logout"))
        .build()
        .unwrap();
    assert_eq!(
        logout_target(&config, None).unwrap(),
        "https://auth.example.com/logout"
    );
    let proxy = Proxy::policy(MockStore::empty(), config);
    let (head, _) = sent(proxy.request_filter("GET", "/logout", &[], &mut new_ctx()));
    assert_eq!(head.status.as_u16(), 302);
    assert_eq!(
        field(&head, "location"),
        Some("https://auth.example.com/logout")
    );
    assert!(!proxy.store.deleted.get());
}

#[test]
fn logout_without_a_loaded_session_goes_on() {
    let mut store = MockStore::with_session(valid_mock_session());
    store.load_fails = true;
    let proxy = Proxy::policy(store, default_policy_config());
    let (head, _) = sent(proxy.logout());
    assert_eq!(field(&head, "location"), Some("https://app.example.com/"));
    assert_eq!(field(&head, "x-deleted"), None);
}

/// A session that cannot be deleted stops the answer that deletes it.
#[test]
fn failed_deletions_stop_the_answer() {
    let broken = || {
        let mut store = MockStore::empty();
        store.delete_fails = true;
        Proxy::policy(store, default_policy_config())
    };
    assert_eq!(
        broken().redirect("/x", Some(valid_mock_session())).err(),
        Some("failed to delete expired session because store is down".to_owned())
    );
    match broken().error_response(Failure::new(401, "session expired"), Some(valid_mock_session())) {
        Reply::Aborted(context) => {
            assert_eq!(context, "failed to delete expired session because store is down");
        }
        _ => panic!("not aborted"),
    }
    let proxy = broken();
    *proxy.store.session.borrow_mut() = Some(valid_mock_session());
    match proxy.logout() {
        Reply::Aborted(context) => {
            assert_eq!(context, "failed to delete session on logout because store is down");
        }
        _ => panic!("not aborted"),
    }
    for (action, context) in [
        (Persist::Delete, "failed to delete session"),
        (Persist::Save, "failed to save session"),
        (Persist::Touch, "failed to touch session"),
    ] {
        let e = persist_error(action, "store is down".into());
        assert_eq!(e.context, context);
        assert_eq!(e.cause.as_deref(), Some("store is down"));
    }
}

/// The response that a session was deleted on is the one that is sent.
#[test]
fn deletions_go_out_with_the_answer() {
    let proxy = Proxy::policy(MockStore::empty(), default_policy_config());
    let head = proxy.redirect("/x", Some(valid_mock_session())).unwrap();
    assert_eq!(field(&head, "x-deleted"), Some("yes"));
    assert!(field(&head, "set-cookie").unwrap().contains("huskarl_login_"));
    let (head, _) = sent(proxy.error_response(
        Failure::new(401, "session expired"),
        Some(valid_mock_session()),
    ));
    assert_eq!(field(&head, "x-deleted"), Some("yes"));
    let (head, _) = sent(proxy.error_response(Failure::new(401, "authentication required"), None));
    assert_eq!(field(&head, "x-deleted"), None);
}

#[test]
fn logout_target_must_fit_a_header() {
    let config = LoginConfig::builder()
        .callback_path("/callback".into())
        .scopes(vec![])
        .base_url(uri("https://app.example.com"))
        .post_logout_redirect_uri("https://x/\n".into())
        .build()
        .unwrap();
    let e = logout_response::<MockSession>(&config, None).err().unwrap();
    assert_eq!(e.context, "failed to set Location header on logout");
    assert_eq!(e.cause.as_deref(), Some(BAD_INSERT));
}

// ── Responses ────────────────────────────────────────────────────────────────

fn loaded_proxy() -> (Proxy, LoginCtx<(), MockSession>) {
    let store = MockStore::with_session(valid_mock_session());
    let proxy = Proxy::policy(store, default_policy_config());
    let mut ctx = new_ctx();
    proxy.request_filter("GET", "/api", API, &mut ctx);
    (proxy, ctx)
}

#[test]
fn upstream_response_filter_delete_path() {
    let (proxy, mut ctx) = loaded_proxy();
    ctx.request_session_delete();

    proxy.upstream_response_filter(&mut ctx);

    assert!(proxy.store.deleted.get());
    assert!(!proxy.store.saved.get());
    assert!(!proxy.store.touched.get());
    assert!(ctx.login_session().is_none());
}

#[test]
fn upstream_response_filter_save_path() {
    let (proxy, mut ctx) = loaded_proxy();
    // Access via login_session_mut marks the session.
    ctx.login_session_mut().unwrap().record_activity();

    proxy.upstream_response_filter(&mut ctx);

    assert!(proxy.store.saved.get());
    assert!(!proxy.store.deleted.get());
    assert!(!ctx.is_session_dirty());
}

#[test]
fn upstream_response_filter_touch_path() {
    let (proxy, mut ctx) = loaded_proxy();
    assert!(!ctx.is_session_dirty());
    assert!(!ctx.is_delete_requested());

    proxy.upstream_response_filter(&mut ctx);

    assert!(proxy.store.touched.get());
    assert!(!proxy.store.saved.get());
    assert!(!proxy.store.deleted.get());
}

#[test]
fn upstream_response_filter_no_session() {
    let proxy = Proxy::policy(MockStore::empty(), default_policy_config());
    let mut ctx = new_ctx();

    proxy.upstream_response_filter(&mut ctx);

    assert!(!proxy.store.deleted.get());
    assert!(!proxy.store.saved.get());
    assert!(!proxy.store.touched.get());
}

/// After a save nothing is left to save, after a deletion nothing to delete.
#[test]
fn persisting_settles() {
    let (_, mut ctx) = loaded_proxy();
    let _ = ctx.login_session_mut();
    assert_eq!(persist_action(&ctx), Persist::Save);
    persisted(Persist::Save, &mut ctx);
    assert_eq!(persist_action(&ctx), Persist::Touch);
    ctx.request_session_delete();
    assert_eq!(persist_action(&ctx), Persist::Delete);
    persisted(Persist::Delete, &mut ctx);
    assert_eq!(persist_action(&ctx), Persist::Drop);
    let mut ctx = new_ctx();
    ctx.request_session_delete();
    assert_eq!(persist_action(&ctx), Persist::Drop);
    assert_eq!(persist_action(&new_ctx()), Persist::Nothing);
}

#[test]
fn error_heads_need_a_status_and_a_content_type() {
    let context = |status, content_type| error_response_head(status, content_type).err().unwrap();
    assert_eq!(
        context(1000, "text/html").context,
        "failed to build error response"
    );
    assert_eq!(context(500, "\u{0}").context, "failed to set content-type");
}
