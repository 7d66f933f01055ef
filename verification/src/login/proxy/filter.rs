//! What happens to a request: routing, session policies, token refresh, and
//! the redirect or error where there is no usable session.

use vstd::prelude::*;

use crate::headers::{
    byte_strings, header_fields, header_values, lower_case_name, text_byte, value_text,
    values_under, visible_text,
};
use crate::json::json_object;
use crate::login::config::LoginConfig;
use crate::login::ctx::HasLoginSession;
use crate::login::grant::{RefreshToken, TokenResponse};
use crate::login::proxy::respond::{persist, Failure, Persist};
use crate::login::token_session::{active_state, refreshed_state, TokenSession, TokenState};
use crate::text::{opt_text, contains_text, occurs, same};
use crate::time::SystemTime;

verus! {

// ── Navigation detection ─────────────────────────────────────────────────────

/// The first value under `name`, if there is one.
pub open spec fn first_field(h: http::HeaderMap, name: Seq<char>) -> Option<Seq<u8>> {
    let values = values_under(header_fields(h), name);
    if values.len() > 0 {
        Some(values[0])
    } else {
        None
    }
}

/// A request looks like a top-level browser navigation: `Sec-Fetch-Mode` is
/// `navigate`, or, where that header is absent, `Accept` is text that contains
/// `text/html`.
pub open spec fn navigates(h: http::HeaderMap) -> bool {
    match first_field(h, "sec-fetch-mode"@) {
        Some(mode) => value_text(mode) == Some("navigate"@),
        None => match first_field(h, "accept"@) {
            Some(accept) => match value_text(accept) {
                Some(text) => occurs(text, "text/html"@),
                None => false,
            },
            None => false,
        },
    }
}

/// The text of the first value under `name`: `None` where the header is
/// absent, `Some(None)` where it is no visible ASCII text.
fn first_text(headers: &http::HeaderMap, name: &str) -> (r: Option<Option<String>>)
    requires
        lower_case_name(name@),
    ensures
        match r {
            None => first_field(*headers, name@) is None,
            Some(t) => {
                &&& first_field(*headers, name@) is Some
                &&& value_text(first_field(*headers, name@)->0) == opt_text(t)
            },
        },
{
    let values = header_values(headers, name);
    assert(byte_strings(values@).len() == values@.len());
    if values.len() == 0 {
        return None;
    }
    assert(byte_strings(values@)[0] == values@[0]@);
    Some(visible_text(&values[0]))
}

/// Returns `true` if this looks like a top-level browser navigation (as
/// opposed to a fetch/XHR, image load, script, etc.).
///
/// Uses the `Sec-Fetch-Mode` header when present. Falls back to checking the
/// `Accept` header for `text/html`.
pub fn is_navigation_request(headers: &http::HeaderMap) -> (r: bool)
    ensures
        r == navigates(*headers),
{
    proof {
        reveal_strlit("sec-fetch-mode");
        reveal_strlit("accept");
        assert(lower_case_name("sec-fetch-mode"@));
        assert(lower_case_name("accept"@));
    }
    match first_text(headers, "sec-fetch-mode") {
        Some(mode) => match mode {
            Some(m) => same(m.as_str(), "navigate"),
            None => false,
        },
        None => match first_text(headers, "accept") {
            Some(accept) => match accept {
                Some(a) => contains_text(a.as_str(), "text/html"),
                None => false,
            },
            None => false,
        },
    }
}

// ── Routing ──────────────────────────────────────────────────────────────────

/// Where a request goes.
#[derive(Debug, Clone, Copy, PartialEq, Eq, Structural)]
pub enum Route {
    /// The callback of the authorization server.
    Callback,
    /// The logout endpoint.
    Logout,
    /// A CORS preflight, which carries no credentials and passes through.
    Preflight,
    /// Any other request, which needs a session.
    Session,
}

/// Where a request goes.
pub open spec fn route(
    config: LoginConfig,
    path: Seq<char>,
    method: Seq<char>,
    headers: http::HeaderMap,
) -> Route {
    if path == config.callback_path@ {
        Route::Callback
    } else if config.logout_path is Some && path == config.logout_path->0@ {
        Route::Logout
    } else if method == "OPTIONS"@ && first_field(headers, "access-control-request-method"@) is Some {
        Route::Preflight
    } else {
        Route::Session
    }
}

/// Where a request goes.
pub fn route_request(
    config: &LoginConfig,
    path: &str,
    method: &str,
    headers: &http::HeaderMap,
) -> (r: Route)
    ensures
        r == route(*config, path@, method@, *headers),
{
    if same(path, config.callback_path.as_str()) {
        return Route::Callback;
    }
    if let Some(p) = &config.logout_path {
        if same(path, p.as_str()) {
            return Route::Logout;
        }
    }
    if same(method, "OPTIONS") {
        proof {
            reveal_strlit("access-control-request-method");
            assert(lower_case_name("access-control-request-method"@));
        }
        if first_text(headers, "access-control-request-method").is_some() {
            return Route::Preflight;
        }
    }
    Route::Session
}

// ── Session policies ─────────────────────────────────────────────────────────

/// What the policies say of a session.
#[derive(Debug, Clone, Copy, PartialEq, Eq, Structural)]
pub enum Verdict {
    /// The session has lived too long or has been idle for too long.
    Expired,
    /// The access token has expired or is about to.
    Stale,
    /// The session can be used.
    Live,
}

/// The session has lived longer than the configured maximum.
pub open spec fn outlived(config: LoginConfig, state: TokenState, now: SystemTime) -> bool {
    config.max_lifetime is Some && now.nanos - state.created_at.nanos
        > config.max_lifetime->0.total()
}

/// The session has been idle for longer than the configured timeout.
pub open spec fn idled(config: LoginConfig, state: TokenState, now: SystemTime) -> bool {
    config.idle_timeout is Some && now.nanos - state.last_active.nanos
        > config.idle_timeout->0.total()
}

/// The access token expires within the configured margin.
pub open spec fn token_due(config: LoginConfig, state: TokenState, now: SystemTime) -> bool {
    state.token_expiry is Some && now.nanos + config.token_refresh_margin.total()
        >= state.token_expiry->0.nanos
}

/// What the policies say of a session.
pub open spec fn verdict(config: LoginConfig, state: TokenState, now: SystemTime) -> Verdict {
    if outlived(config, state, now) || idled(config, state, now) {
        Verdict::Expired
    } else if token_due(config, state, now) {
        Verdict::Stale
    } else {
        Verdict::Live
    }
}

/// Applies the session policies.
pub fn judge(config: &LoginConfig, state: &TokenState, now: SystemTime) -> (r: Verdict)
    ensures
        r == verdict(*config, *state, now),
{
    if let Some(limit) = config.max_lifetime {
        if now.elapsed_more_than(state.created_at, limit) {
            return Verdict::Expired;
        }
    }
    if let Some(limit) = config.idle_timeout {
        if now.elapsed_more_than(state.last_active, limit) {
            return Verdict::Expired;
        }
    }
    if let Some(end) = state.token_expiry {
        if now.within(config.token_refresh_margin, end) {
            return Verdict::Stale;
        }
    }
    Verdict::Live
}

/// A session that is used is within its limits: it has not lived longer than
/// the maximum, has not been idle for longer than the timeout, and, unless its
/// tokens are refreshed first, its access token does not expire within the
/// margin.
pub proof fn law_used_session_is_within_limits(
    config: LoginConfig,
    state: TokenState,
    now: SystemTime,
)
    requires
        !(verdict(config, state, now) is Expired),
    ensures
        config.max_lifetime is Some ==> now.nanos - state.created_at.nanos
            <= config.max_lifetime->0.total(),
        config.idle_timeout is Some ==> now.nanos - state.last_active.nanos
            <= config.idle_timeout->0.total(),
        verdict(config, state, now) is Live && state.token_expiry is Some ==> now.nanos
            + config.token_refresh_margin.total() < state.token_expiry->0.nanos,
{
}

/// Once a session has expired, it stays expired: where no activity is recorded,
/// later requests find it expired too.
pub proof fn law_expiry_is_permanent(
    config: LoginConfig,
    state: TokenState,
    now: SystemTime,
    later: SystemTime,
)
    requires
        verdict(config, state, now) is Expired,
        now.nanos <= later.nanos,
    ensures
        verdict(config, state, later) is Expired,
{
}

// ── The filter ───────────────────────────────────────────────────────────────

/// Where the filtering of a request stands.
pub enum FilterState<S> {
    /// The session is being loaded.
    Loading,
    /// The tokens of the session are being refreshed.
    Refreshing(S),
    /// The browser is being redirected to the authorization server.
    Redirecting,
}

/// A step: the next state, unless the request is decided, and the action.
pub type FilterStep<S> = (Option<FilterState<S>>, FilterAction<S>);

/// What happened.
pub enum FilterEvent<S> {
    /// The store answered, with a session or without one.
    Loaded(Option<S>),
    /// The store failed.
    LoadFailed,
    /// The authorization server issued new tokens.
    Refreshed(TokenResponse),
    /// The refresh failed.
    RefreshFailed,
    /// The redirect was sent.
    Redirected,
    /// The redirect could not be made.
    RedirectFailed,
}

/// What is to be done.
pub enum FilterAction<S> {
    /// Refresh the tokens with this refresh token.
    Refresh(RefreshToken),
    /// Hand the request to the inner proxy.
    Forward,
    /// Redirect to the authorization server, deleting the expired session.
    Redirect {
        /// The session to delete on the same response.
        expired: Option<S>,
    },
    /// Answer with an error page, deleting the expired session.
    Respond {
        /// What the page says.
        failure: Failure,
        /// The session to delete on the same response.
        expired: Option<S>,
    },
    /// The response has been sent.
    Handled,
}

/// The answer is an error page with the given status and message.
pub open spec fn responds<S>(
    step: FilterStep<S>,
    status: u16,
    message: Seq<char>,
    expired: Option<S>,
) -> bool {
    &&& step.0 is None
    &&& step.1 matches FilterAction::Respond { failure, expired: e }
    &&& failure.says(status, message)
    &&& e == expired
}

/// An expired session is deleted; a navigation is redirected to log in again,
/// any other request is answered with 401.
pub open spec fn expires<S>(
    step: FilterStep<S>,
    session: S,
    navigation: bool,
) -> bool {
    if navigation {
        step.0 == Some(FilterState::<S>::Redirecting) && step.1 == (FilterAction::Redirect {
            expired: Some(session),
        })
    } else {
        responds(step, 401, "session expired"@, Some(session))
    }
}

/// Expires a session: deletes it and redirects (navigation) or returns 401.
fn expire_session<S>(session: S, navigation: bool) -> (r: FilterStep<S>)
    ensures
        expires(r, session, navigation),
{
    if navigation {
        (Some(FilterState::Redirecting), FilterAction::Redirect { expired: Some(session) })
    } else {
        (
            None,
            FilterAction::Respond {
                failure: Failure::new(401, "session expired"),
                expired: Some(session),
            },
        )
    }
}

/// The next step of filtering a request.
///
/// A session that has outlived its maximum or its idle timeout expires. One
/// whose token is due is refreshed, or expires where there is no refresh token
/// or the refresh fails. A live session has its activity recorded. Without a
/// session a navigation is redirected to log in, any other request is answered
/// with 401.
///
/// A forwarded session is in the context: with its activity recorded `now` and
/// to be touched, or refreshed `now` and to be saved.
pub fn filter_step<S: TokenSession, X: HasLoginSession<S>>(
    config: &LoginConfig,
    navigation: bool,
    now: SystemTime,
    state: FilterState<S>,
    event: FilterEvent<S>,
    ctx: &mut X,
) -> (r: FilterStep<S>)
    requires
        now.readable(),
    ensures
        final(ctx).doomed() == old(ctx).doomed(),
        !(r.1 is Forward) ==> *final(ctx) == *old(ctx),
        // Nothing is forwarded without a session.
        r.1 is Forward ==> final(ctx).stored() is Some,
        // What is done with a forwarded session when the response is sent.
        r.1 is Forward && !old(ctx).doomed() ==> persist(
            final(ctx).stored() is Some,
            final(ctx).dirty(),
            final(ctx).doomed(),
        ) == if state is Refreshing {
            Persist::Save
        } else {
            Persist::Touch
        },
        match state {
            FilterState::Loading => match event {
                FilterEvent::Loaded(None) => if navigation {
                    &&& r.0 == Some(FilterState::<S>::Redirecting)
                    &&& r.1 == (FilterAction::<S>::Redirect { expired: None })
                } else {
                    responds(r, 401, "authentication required"@, None)
                },
                FilterEvent::Loaded(Some(session)) => match verdict(
                    *config,
                    session.state(),
                    now,
                ) {
                    Verdict::Expired => expires(r, session, navigation),
                    Verdict::Stale => match session.state().refresh_token {
                        Some(token) => {
                            &&& r.0 == Some(FilterState::Refreshing(session))
                            &&& r.1 == FilterAction::<S>::Refresh(token)
                        },
                        None => expires(r, session, navigation),
                    },
                    Verdict::Live => {
                        &&& r.0 is None
                        &&& r.1 is Forward
                        &&& final(ctx).stored() is Some
                        &&& final(ctx).stored()->0.state() == active_state(
                            session.state(),
                            now,
                        )
                        &&& session.same_session(&final(ctx).stored()->0)
                        &&& !final(ctx).dirty()
                    },
                },
                _ => responds(r, 500, "failed to load session"@, None),
            },
            FilterState::Refreshing(session) => match event {
                FilterEvent::Refreshed(response) => {
                    &&& r.0 is None
                    &&& r.1 is Forward
                    &&& final(ctx).stored() is Some
                    &&& final(ctx).stored()->0.state() == refreshed_state(
                        session.state(),
                        response,
                        now,
                    )
                    &&& session.same_session(&final(ctx).stored()->0)
                    &&& final(ctx).dirty()
                },
                _ => expires(r, session, navigation),
            },
            FilterState::Redirecting => match event {
                FilterEvent::Redirected => r.0 is None && r.1 is Handled,
                _ => responds(r, 500, "failed to start login"@, None),
            },
        },
{
    match state {
        FilterState::Loading => match event {
            FilterEvent::Loaded(None) => if navigation {
                (Some(FilterState::Redirecting), FilterAction::Redirect { expired: None })
            } else {
                respond(401, "authentication required")
            },
            FilterEvent::Loaded(Some(session)) => match judge(config, session.token_state(), now) {
                Verdict::Expired => expire_session(session, navigation),
                Verdict::Stale => {
                    let token = match session.refresh_token() {
                        Some(t) => Some(t.duplicate()),
                        None => None,
                    };
                    match token {
                        Some(t) => (
                            Some(FilterState::Refreshing(session)),
                            FilterAction::Refresh(t),
                        ),
                        None => expire_session(session, navigation),
                    }
                },
                Verdict::Live => {
                    let mut session = session;
                    session.record_activity_at(now);
                    ctx.set_login_session(Some(session));
                    (None, FilterAction::Forward)
                },
            },
            _ => respond(500, "failed to load session"),
        },
        FilterState::Refreshing(session) => match event {
            FilterEvent::Refreshed(response) => {
                let mut session = session;
                session.apply_refresh_at(&response, now);
                ctx.set_login_session(Some(session));
                // Marks the session, so that it is saved with the response.
                let _ = ctx.login_session_mut();
                (None, FilterAction::Forward)
            },
            _ => expire_session(session, navigation),
        },
        FilterState::Redirecting => match event {
            FilterEvent::Redirected => (None, FilterAction::Handled),
            _ => respond(500, "failed to start login"),
        },
    }
}

/// Answers with an error page.
fn respond<S>(status: u16, message: &str) -> (r: FilterStep<S>)
    ensures
        responds(r, status, message@, None),
{
    (None, FilterAction::Respond { failure: Failure::new(status, message), expired: None })
}

// ── Laws ─────────────────────────────────────────────────────────────────────

/// When a session expires, is refreshed, or is used: it expires only by the
/// limits that are configured, each held against its own point in time, and
/// within them only the expiry of its token decides.
pub proof fn law_verdict_follows_the_limits(
    config: &LoginConfig,
    state: &TokenState,
    now: SystemTime,
    r: Verdict,
)
    requires
        call_ensures(judge, (config, state, now), r),
    ensures
        r is Expired <==> {
            ||| config.max_lifetime is Some && now.nanos - state.created_at.nanos
                > config.max_lifetime->0.secs * 1_000_000_000 + config.max_lifetime->0.nanos
            ||| config.idle_timeout is Some && now.nanos - state.last_active.nanos
                > config.idle_timeout->0.secs * 1_000_000_000 + config.idle_timeout->0.nanos
        },
        !(r is Expired) ==> (r is Stale <==> state.token_expiry is Some && now.nanos
            + config.token_refresh_margin.secs * 1_000_000_000 + config.token_refresh_margin.nanos
            >= state.token_expiry->0.nanos),
        config.max_lifetime is None && config.idle_timeout is None ==> !(r is Expired),
        state.token_expiry is None ==> !(r is Stale),
{
}

/// A request is a navigation by its first `Sec-Fetch-Mode` value, which has to be
/// `navigate`; without that header by its first `Accept` value, which has to
/// contain `text/html`; and without either it is none.
#[verifier::rlimit(30)]
pub proof fn law_navigation_by_headers(headers: &http::HeaderMap, text: Seq<char>, r: bool)
    requires
        call_ensures(is_navigation_request, (headers,), r),
    ensures
        shows(*headers, "sec-fetch-mode"@, text) ==> (r <==> text == "navigate"@),
        !sent(*headers, "sec-fetch-mode"@) && shows(*headers, "accept"@, text) ==> (r <==> exists|
            i: int,
        |
            0 <= i <= text.len() - 9 && #[trigger] text.subrange(i, i + 9) == "text/html"@),
        !sent(*headers, "sec-fetch-mode"@) && !sent(*headers, "accept"@) ==> !r,
        !sent(*headers, "sec-fetch-mode"@) && sent(*headers, "accept"@) && (exists|i: int|
            0 <= i < header_fields(*headers)["accept"@][0].len() && ((
            #[trigger] header_fields(*headers)["accept"@][0][i]) < 32 && header_fields(
                *headers,
            )["accept"@][0][i] != 9 || header_fields(*headers)["accept"@][0][i] >= 127)) ==> !r,
        sent(*headers, "sec-fetch-mode"@) ==> (r <==> shows(
            *headers,
            "sec-fetch-mode"@,
            "navigate"@,
        )),
{
    reveal_strlit("navigate");
    if sent(*headers, "sec-fetch-mode"@) {
        let first = header_fields(*headers)["sec-fetch-mode"@][0];
        if r {
            let read = Seq::new(first.len(), |i: int| first[i] as char);
            assert(read == "navigate"@);
            assert forall|i: int| 0 <= i < "navigate"@.len() implies 32 <= #[trigger] first[i] < 127
                && first[i] as u32 == "navigate"@[i] as u32 by {
                assert(text_byte(first[i]));
                assert(read[i] == "navigate"@[i]);
            }
        } else if shows(*headers, "sec-fetch-mode"@, "navigate"@) {
            lemma_shown_text(first, "navigate"@);
        }
    }
    if shows(*headers, "sec-fetch-mode"@, text) {
        lemma_shown_text(header_fields(*headers)["sec-fetch-mode"@][0], text);
    }
    if sent(*headers, "accept"@) {
        let first = header_fields(*headers)["accept"@][0];
        if exists|i: int|
            0 <= i < first.len() && ((#[trigger] first[i]) < 32 && first[i] != 9 || first[i] >= 127) {
            let i = choose|i: int|
                0 <= i < first.len() && ((#[trigger] first[i]) < 32 && first[i] != 9 || first[i]
                    >= 127);
            assert(!text_byte(first[i]));
        }
    }
    if shows(*headers, "accept"@, text) {
        lemma_shown_text(header_fields(*headers)["accept"@][0], text);
        reveal_strlit("text/html");
        assert(occurs(text, "text/html"@) <==> exists|i: int|
            0 <= i <= text.len() - 9 && #[trigger] text.subrange(i, i + 9) == "text/html"@) by {
            lemma_occurs_html(text);
        }
    }
}

/// The request has a header with this lower-case name.
pub open spec fn sent(headers: http::HeaderMap, name: Seq<char>) -> bool {
    header_fields(headers).dom().contains(name) && header_fields(headers)[name].len() > 0
}

/// The first value of a header is this text of visible ASCII characters.
pub open spec fn shows(headers: http::HeaderMap, name: Seq<char>, text: Seq<char>) -> bool {
    let first = header_fields(headers)[name][0];
    &&& sent(headers, name)
    &&& first.len() == text.len()
    &&& forall|i: int|
        0 <= i < text.len() ==> 32 <= #[trigger] first[i] < 127 && first[i] as u32 == text[i] as u32
}

/// A text that is shown is what the value reads as.
proof fn lemma_shown_text(bytes: Seq<u8>, text: Seq<char>)
    requires
        bytes.len() == text.len(),
        forall|i: int|
            0 <= i < text.len() ==> 32 <= #[trigger] bytes[i] < 127 && bytes[i] as u32
                == text[i] as u32,
    ensures
        value_text(bytes) == Some(text),
{
    assert forall|i: int| 0 <= i < bytes.len() implies text_byte(#[trigger] bytes[i]) by {}
    assert(Seq::new(bytes.len(), |i: int| bytes[i] as char) == text) by {
        assert forall|i: int| 0 <= i < text.len() implies (#[trigger] bytes[i]) as char
            == text[i] by {
            lemma_same_char(bytes[i], text[i]);
        }
    }
}

/// A character with the number of an ASCII byte is that byte.
proof fn lemma_same_char(b: u8, c: char)
    requires
        b < 128,
        b as u32 == c as u32,
    ensures
        b as char == c,
{
}

/// A request goes to the callback by its path, to the logout endpoint by its
/// path where there is one, and past the login as a CORS preflight, by its method
/// and the header that makes it one. Every other request needs a session.
pub proof fn law_route_by_path_and_method(
    config: &LoginConfig,
    path: &str,
    method: &str,
    headers: &http::HeaderMap,
    r: Route,
)
    requires
        call_ensures(route_request, (config, path, method, headers), r),
    ensures
        r is Callback <==> path@ == config.callback_path@,
        r is Logout <==> path@ != config.callback_path@ && config.logout_path is Some && path@
            == config.logout_path->0@,
        r is Preflight <==> path@ != config.callback_path@ && !(config.logout_path is Some && path@
            == config.logout_path->0@) && method@ == "OPTIONS"@ && sent(
            *headers,
            "access-control-request-method"@,
        ),
{
}

/// Without a session, or where it cannot be loaded, nothing is forwarded: a
/// navigation is sent to log in, any other request is answered with 401, and a
/// store that failed is answered with 500.
pub proof fn law_no_session_is_not_forwarded<S: TokenSession, X: HasLoginSession<S>>(
    config: &LoginConfig,
    navigation: bool,
    now: SystemTime,
    event: FilterEvent<S>,
    ctx: &mut X,
    r: FilterStep<S>,
)
    requires
        call_ensures(
            filter_step::<S, X>,
            (config, navigation, now, FilterState::Loading, event, ctx),
            r,
        ),
    ensures
        event is Loaded && event->Loaded_0 is None && navigation ==> {
            &&& r.0 is Some && r.0->0 is Redirecting
            &&& r.1 is Redirect && r.1->Redirect_expired is None
        },
        event is Loaded && event->Loaded_0 is None && !navigation ==> {
            &&& r.0 is None
            &&& r.1 is Respond && r.1->failure.status == 401 && r.1->Respond_expired is None
            &&& r.1->failure.message@ == "authentication required"@
        },
        !(event is Loaded) ==> {
            &&& r.0 is None
            &&& r.1 is Respond && r.1->failure.status == 500 && r.1->Respond_expired is None
            &&& r.1->failure.message@ == "failed to load session"@
        },
        !(event is Loaded && event->Loaded_0 is Some) ==> *final(ctx) == *old(ctx),
{
}

/// What becomes of a session that was loaded. One that has expired is deleted,
/// with a redirect for a navigation and 401 for any other request. One whose
/// token is due is refreshed with its own refresh token, and expires where it has
/// none. One that is live is forwarded: it is in the context, was active just
/// now, is otherwise what it was, and is to be touched.
pub proof fn law_loaded_session_is_judged<S: TokenSession, X: HasLoginSession<S>>(
    config: &LoginConfig,
    navigation: bool,
    now: SystemTime,
    session: S,
    state: &TokenState,
    verdict: Verdict,
    ctx: &mut X,
    r: FilterStep<S>,
)
    requires
        *state == session.state(),
        call_ensures(judge, (config, state, now), verdict),
        call_ensures(
            filter_step::<S, X>,
            (
                config,
                navigation,
                now,
                FilterState::Loading,
                FilterEvent::Loaded(Some(session)),
                ctx,
            ),
            r,
        ),
    ensures
        verdict is Expired || (verdict is Stale && state.refresh_token is None) ==> {
            &&& *final(ctx) == *old(ctx)
            &&& navigation ==> r.0 is Some && r.0->0 is Redirecting && r.1 is Redirect
                && r.1->Redirect_expired == Some(session)
            &&& !navigation ==> r.0 is None && r.1 is Respond && r.1->failure.status == 401
                && r.1->failure.message@ == "session expired"@ && r.1->Respond_expired == Some(
                session,
            )
        },
        verdict is Stale && state.refresh_token is Some ==> {
            &&& *final(ctx) == *old(ctx)
            &&& r.0 == Some(FilterState::Refreshing(session))
            &&& r.1 is Refresh && r.1->Refresh_0 == state.refresh_token->0
        },
        verdict is Live ==> {
            &&& r.0 is None
            &&& r.1 is Forward
            &&& final(ctx).stored() is Some
            &&& session.same_session(&final(ctx).stored()->0)
            &&& final(ctx).stored()->0.state().last_active == now
            &&& final(ctx).stored()->0.state().created_at == state.created_at
            &&& final(ctx).stored()->0.state().token_expiry == state.token_expiry
            &&& final(ctx).stored()->0.state().refresh_token == state.refresh_token
            &&& final(ctx).stored()->0.state().id_token == state.id_token
            &&& final(ctx).stored()->0.state().raw_token_response == state.raw_token_response
            &&& !final(ctx).dirty()
            &&& final(ctx).doomed() == old(ctx).doomed()
        },
{
}

/// What becomes of a session whose tokens are being refreshed. With new tokens it
/// is forwarded and to be saved: a refresh token that was issued replaces its
/// own, its ID token and its time of creation stay, and it was active just now.
/// Where the refresh fails it expires.
pub proof fn law_refreshed_session_is_forwarded<S: TokenSession, X: HasLoginSession<S>>(
    config: &LoginConfig,
    navigation: bool,
    now: SystemTime,
    session: S,
    event: FilterEvent<S>,
    ctx: &mut X,
    r: FilterStep<S>,
)
    requires
        now.readable(),
        call_ensures(
            filter_step::<S, X>,
            (config, navigation, now, FilterState::Refreshing(session), event, ctx),
            r,
        ),
    ensures
        event is Refreshed ==> ({
            let response = event->Refreshed_0;
            let after = final(ctx).stored()->0.state();
            &&& r.0 is None
            &&& r.1 is Forward
            &&& final(ctx).stored() is Some
            &&& session.same_session(&final(ctx).stored()->0)
            &&& final(ctx).dirty()
            &&& final(ctx).doomed() == old(ctx).doomed()
            &&& after.last_active == now
            &&& after.created_at == session.state().created_at
            &&& after.id_token == session.state().id_token
            &&& response.refresh_token is Some ==> after.refresh_token == response.refresh_token
            &&& response.refresh_token is None ==> after.refresh_token
                == session.state().refresh_token
            &&& response.raw is Ok ==> after.raw_token_response == response.raw->Ok_0
            &&& response.raw is Ok ==> match json_object(response.raw->Ok_0) {
                Some(m) => if m.dom().contains("expires_in"@) && m["expires_in"@] is Uint {
                    after.token_expiry is Some && after.token_expiry->0.nanos == now.nanos
                        + m["expires_in"@]->Uint_0 * 1_000_000_000
                } else {
                    after.token_expiry is None
                },
                None => after.token_expiry is None,
            }
            &&& response.raw is Err ==> after.raw_token_response
                == session.state().raw_token_response && after.token_expiry
                == session.state().token_expiry
        }),
        !(event is Refreshed) ==> {
            &&& *final(ctx) == *old(ctx)
            &&& navigation ==> r.0 is Some && r.0->0 is Redirecting && r.1 is Redirect
                && r.1->Redirect_expired == Some(session)
            &&& !navigation ==> r.0 is None && r.1 is Respond && r.1->failure.status == 401
                && r.1->failure.message@ == "session expired"@ && r.1->Respond_expired == Some(
                session,
            )
        },
{
}

/// A redirect that was sent settles the request, and one that could not be made
/// is answered with 500.
pub proof fn law_redirect_settles_the_request<S: TokenSession, X: HasLoginSession<S>>(
    config: &LoginConfig,
    navigation: bool,
    now: SystemTime,
    event: FilterEvent<S>,
    ctx: &mut X,
    r: FilterStep<S>,
)
    requires
        call_ensures(
            filter_step::<S, X>,
            (config, navigation, now, FilterState::Redirecting, event, ctx),
            r,
        ),
    ensures
        r.0 is None,
        *final(ctx) == *old(ctx),
        event is Redirected ==> r.1 is Handled,
        !(event is Redirected) ==> r.1 is Respond && r.1->failure.status == 500
            && r.1->failure.message@ == "failed to start login"@ && r.1->Respond_expired is None,
{
}

/// `text/html` occurs in a text exactly where nine of its characters are it.
proof fn lemma_occurs_html(text: Seq<char>)
    ensures
        occurs(text, "text/html"@) <==> exists|i: int|
            0 <= i <= text.len() - 9 && #[trigger] text.subrange(i, i + 9) == "text/html"@,
{
    reveal_strlit("text/html");
    let needle = "text/html"@;
    if occurs(text, needle) {
        let i = choose|i: int|
            0 <= i <= text.len() - needle.len() && #[trigger] text.subrange(i, i + needle.len())
                == needle;
        assert(text.subrange(i, i + 9) == needle);
    }
    if exists|i: int|
        0 <= i <= text.len() - 9 && #[trigger] text.subrange(i, i + 9) == needle {
        let i = choose|i: int|
            0 <= i <= text.len() - 9 && #[trigger] text.subrange(i, i + 9) == needle;
        assert(text.subrange(i, i + needle.len()) == needle);
    }
}

} // verus!
