//! The answer to the callback of the authorization server.
//!
//! The parameters and the login-state cookie are checked, the code is
//! exchanged, a session is created and saved, and the browser is sent back to
//! where the login began.

use vstd::prelude::*;

use crate::headers::{
    bad_insert_text, encoded, head_of, header_safe, lemma_keys_distinct, put_header,
    response_fields, response_names, response_status, start_response, Head, HeaderField,
    ResponseError,
};
use crate::login::config::LoginConfig;
use crate::login::cookie::{
    all_of, base64_bytes, base64_text, cookies, decode_value, each_fits, first_value, get_cookie,
    law_first_value, lemma_first_value, login_state_cookie_name, pairs, received, request_cookies,
    Pair,
};
use crate::login::proxy::redirect::{
    flow_cookie_name, redirect_head, redirects, return_url, starts, RedirectAction, RedirectEvent,
    RedirectState, RedirectStep,
};
use crate::login::proxy::respond::{lemma_login_cookie_safe, login_cookie, login_cookie_line, Failure};
use crate::login::store_session::{law_pointer_cookie_round_trip, pointer_in};
use crate::text::{cat, cat3, opt_text, same};
use crate::uri::UriView;

verus! {

// ── Parameters ───────────────────────────────────────────────────────────────

/// The parameters that a query string holds, in order.
pub uninterp spec fn query_params(query: Seq<char>) -> Seq<Pair>;

/// Reads the parameters of a query string.
///
/// Trusted: `serde_html_form::from_str` into a list of pairs of strings. It
/// accepts every text; the pairs depend on the text alone.
#[verifier::external_body]
fn form_params(query: &str) -> (r: Vec<(String, String)>)
    ensures
        pairs(r@) == query_params(query@),
{
    serde_html_form::from_str(query).unwrap_or_default()
}

/// The parameters of a callback.
pub struct CallbackParams {
    /// The authorization code.
    pub code: Option<String>,
    /// The `state` value of the flow.
    pub state: Option<String>,
    /// The issuer.
    pub iss: Option<String>,
    /// The error code of the authorization server.
    pub error: Option<String>,
    /// The description of the error.
    pub error_description: Option<String>,
}

/// The number of parameters with the given name.
pub open spec fn occurrences(params: Seq<Pair>, name: Seq<char>) -> nat
    decreases params.len(),
{
    if params.len() == 0 {
        0
    } else {
        occurrences(params.drop_last(), name) + if params.last().0 == name {
            1nat
        } else {
            0nat
        }
    }
}

/// No parameter of a callback occurs twice.
pub open spec fn unambiguous(params: Seq<Pair>) -> bool {
    &&& occurrences(params, "code"@) <= 1
    &&& occurrences(params, "state"@) <= 1
    &&& occurrences(params, "iss"@) <= 1
    &&& occurrences(params, "error"@) <= 1
    &&& occurrences(params, "error_description"@) <= 1
}

/// The value of a callback parameter. Where one of the parameters occurs twice,
/// all of them count as absent.
pub open spec fn param(params: Seq<Pair>, name: Seq<char>) -> Option<Seq<char>> {
    if unambiguous(params) {
        first_value(params, name)
    } else {
        None
    }
}

/// The value of the first parameter with a name, and whether there are more.
fn look_up(params: &Vec<(String, String)>, name: &str) -> (r: (Option<String>, bool))
    ensures
        opt_text(r.0) == first_value(pairs(params@), name@),
        r.1 == (occurrences(pairs(params@), name@) <= 1),
{
    let ghost model = pairs(params@);
    let mut found: Option<String> = None;
    let mut count: usize = 0;
    let mut i: usize = 0;
    assert(model.take(0) == Seq::<Pair>::empty());
    while i < params.len()
        invariant
            i <= params@.len(),
            count <= i,
            model == pairs(params@),
            opt_text(found) == first_value(model.take(i as int), name@),
            count == occurrences(model.take(i as int), name@),
        decreases params@.len() - i,
    {
        proof {
            let done = model.take(i + 1);
            assert(done.drop_last() == model.take(i as int));
            assert(done.last() == (params@[i as int].0@, params@[i as int].1@));
            lemma_first_value_push(model.take(i as int), done.last(), name@);
            assert(done == model.take(i as int).push(done.last()));
        }
        if same(params[i].0.as_str(), name) {
            if found.is_none() {
                found = Some(params[i].1.clone());
            }
            count = count + 1;
        }
        i = i + 1;
    }
    assert(model.take(i as int) == model);
    (found, count <= 1)
}

/// The first parameter with a name stays the first one when more follow.
proof fn lemma_first_value_push(params: Seq<Pair>, last: Pair, name: Seq<char>)
    ensures
        first_value(params.push(last), name) == match first_value(params, name) {
            Some(v) => Some(v),
            None => if last.0 == name {
                Some(last.1)
            } else {
                None
            },
        },
    decreases params.len(),
{
    let all = params.push(last);
    if params.len() == 0 {
        assert(all.subrange(1, all.len() as int) == Seq::<Pair>::empty());
        reveal_with_fuel(first_value, 2);
    } else {
        let rest = params.subrange(1, params.len() as int);
        assert(all[0] == params[0]);
        assert(all.subrange(1, all.len() as int) == rest.push(last));
        lemma_first_value_push(rest, last, name);
    }
}

/// The model of [`CallbackParams`].
pub struct ParamsView {
    pub code: Option<Seq<char>>,
    pub state: Option<Seq<char>>,
    pub iss: Option<Seq<char>>,
    pub error: Option<Seq<char>>,
    pub error_description: Option<Seq<char>>,
}

impl View for CallbackParams {
    type V = ParamsView;

    open spec fn view(&self) -> ParamsView {
        ParamsView {
            code: opt_text(self.code),
            state: opt_text(self.state),
            iss: opt_text(self.iss),
            error: opt_text(self.error),
            error_description: opt_text(self.error_description),
        }
    }
}

/// The callback parameters in a list of parameters.
pub open spec fn callback_params(params: Seq<Pair>) -> ParamsView {
    ParamsView {
        code: param(params, "code"@),
        state: param(params, "state"@),
        iss: param(params, "iss"@),
        error: param(params, "error"@),
        error_description: param(params, "error_description"@),
    }
}

impl CallbackParams {
    /// Picks the callback parameters out of a list of parameters.
    pub fn from_pairs(params: &Vec<(String, String)>) -> (r: Self)
        ensures
            r@ == callback_params(pairs(params@)),
    {
        let (code, one_code) = look_up(params, "code");
        let (state, one_state) = look_up(params, "state");
        let (iss, one_iss) = look_up(params, "iss");
        let (error, one_error) = look_up(params, "error");
        let (error_description, one_description) = look_up(params, "error_description");
        if one_code && one_state && one_iss && one_error && one_description {
            CallbackParams { code, state, iss, error, error_description }
        } else {
            CallbackParams {
                code: None,
                state: None,
                iss: None,
                error: None,
                error_description: None,
            }
        }
    }

    /// Reads the callback parameters of a query string.
    pub fn from_query(query: &str) -> (r: Self)
        ensures
            r@ == callback_params(query_params(query@)),
    {
        let params = form_params(query);
        Self::from_pairs(&params)
    }
}

// ── The flow ─────────────────────────────────────────────────────────────────

/// What is kept of a callback while the flow goes on.
pub struct Exchange {
    /// The authorization code.
    pub code: String,
    /// The `state` value of the flow.
    pub state: String,
    /// The issuer.
    pub iss: Option<String>,
    /// The name of the login-state cookie.
    pub cookie_name: String,
}

/// Where the answer to a callback stands.
pub enum CallbackState {
    /// The login-state cookie is being unsealed.
    Unsealing(Exchange),
    /// The unsealed login state is being read.
    Reading(Exchange),
    /// The code is being exchanged.
    Exchanging {
        /// The name of the login-state cookie.
        cookie_name: String,
        /// The URL to return to.
        original_url: String,
    },
    /// The session is being created.
    Creating {
        /// The name of the login-state cookie.
        cookie_name: String,
        /// The URL to return to.
        original_url: String,
    },
    /// The session is being saved to the response.
    Saving,
}

/// A step: the next state, unless the callback is answered, and the action.
pub type CallbackStep<S> = (Option<CallbackState>, CallbackAction<S>);

/// What happened.
pub enum CallbackEvent<S> {
    /// The login-state cookie was unsealed.
    Unsealed,
    /// The login-state cookie could not be unsealed.
    UnsealFailed,
    /// The login state was read; it holds the URL to return to.
    Read(String),
    /// The unsealed login state is no login state.
    ReadFailed,
    /// The code was exchanged for tokens.
    Exchanged,
    /// The exchange failed.
    ExchangeFailed,
    /// The session was created.
    Created(S),
    /// The session could not be created.
    CreateFailed,
    /// The session was saved, to this response.
    Saved(pingora_http::ResponseHeader),
    /// The session could not be saved.
    SaveFailed,
}

/// What is to be done.
pub enum CallbackAction<S> {
    /// Unseal the bundle, with the `state` value as associated data.
    Unseal {
        /// The sealed login state.
        bundle: Vec<u8>,
        /// The associated data.
        aad: String,
    },
    /// Read the unsealed login state.
    ReadLoginState,
    /// Exchange the code for tokens.
    Exchange {
        /// The authorization code.
        code: String,
        /// The `state` value of the flow.
        state: String,
        /// The issuer.
        iss: Option<String>,
    },
    /// Create a session from the completed login.
    CreateSession,
    /// Save the session to this response.
    SaveSession {
        /// The session to save.
        session: S,
        /// The response that it is saved to.
        response: pingora_http::ResponseHeader,
    },
    /// Send the response.
    Send(pingora_http::ResponseHeader),
    /// Answer with an error page.
    Fail(Failure),
    /// Give up.
    Abort(ResponseError),
}

/// The answer is an error page with the given status and message.
pub open spec fn fails<S>(
    step: CallbackStep<S>,
    status: u16,
    message: Seq<char>,
) -> bool {
    &&& step.0 is None
    &&& step.1 matches CallbackAction::Fail(f)
    &&& f.says(status, message)
}

/// The message for an error that the authorization server reports.
pub open spec fn denial(error: Seq<char>, description: Option<Seq<char>>) -> Seq<char> {
    match description {
        Some(d) => "authorization denied: "@ + d,
        None => "authorization denied ("@ + error + ")"@,
    }
}

/// How the answer to a callback begins, from its parameters and the cookies of
/// the request.
///
/// An error that the authorization server reports is passed on. Without a code
/// or a state, without the login-state cookie of that state, or where the
/// cookie is no Base64 text, the request is bad. Otherwise the cookie is
/// unsealed, with the state as associated data.
pub open spec fn begins<S>(
    config: LoginConfig,
    params: ParamsView,
    cookies: Seq<Pair>,
    step: CallbackStep<S>,
) -> bool {
    match params.error {
        Some(error) => fails(step, 403, denial(error, params.error_description)),
        None => if params.code is None || params.state is None {
            fails(step, 400, "missing code or state"@)
        } else {
            let name = flow_cookie_name(config, params.state->0);
            if first_value(cookies, name) is None {
                fails(step, 400, "invalid or missing state"@)
            } else if pointer_in(cookies, name) is None {
                fails(step, 400, "malformed state cookie"@)
            } else {
                &&& step.0 matches Some(CallbackState::Unsealing(x))
                &&& Some(x.code@) == params.code
                &&& Some(x.state@) == params.state
                &&& opt_text(x.iss) == params.iss
                &&& x.cookie_name@ == name
                &&& step.1 matches CallbackAction::Unseal { bundle, aad }
                &&& Some(aad@) == params.state
                &&& Some(bundle@) == pointer_in(cookies, name)
            }
        },
    }
}

/// A step that answers with an error page.
fn failure<S>(status: u16, message: &str) -> (r: CallbackStep<S>)
    ensures
        fails(r, status, message@),
{
    (None, CallbackAction::Fail(Failure::new(status, message)))
}

/// Begins the answer to a callback, from its parameters.
pub fn begin_with_params<S>(
    config: &LoginConfig,
    params: CallbackParams,
    headers: &http::HeaderMap,
) -> (r: CallbackStep<S>)
    ensures
        begins(*config, params@, request_cookies(*headers), r),
{
    if let Some(error) = params.error {
        let message = match params.error_description {
            Some(desc) => cat("authorization denied: ", desc.as_str()),
            None => cat3("authorization denied (", error.as_str(), ")"),
        };
        return failure(403, message.as_str());
    }
    let code = match params.code {
        Some(c) => c,
        None => return failure(400, "missing code or state"),
    };
    let state = match params.state {
        Some(s) => s,
        None => return failure(400, "missing code or state"),
    };
    let cookie_name = login_state_cookie_name(
        state.as_str(),
        config.secure,
        config.browser_callback_path.as_str(),
    );
    let encoded = match get_cookie(headers, cookie_name.as_str()) {
        Some(v) => v,
        None => return failure(400, "invalid or missing state"),
    };
    let bundle = match decode_value(encoded.as_str()) {
        Some(b) => b,
        None => return failure(400, "malformed state cookie"),
    };
    let aad = state.clone();
    (
        Some(CallbackState::Unsealing(Exchange { code, state, iss: params.iss, cookie_name })),
        CallbackAction::Unseal { bundle, aad },
    )
}

/// Begins the answer to a callback, from the query string of the request.
pub fn begin_callback<S>(
    config: &LoginConfig,
    query: Option<&str>,
    headers: &http::HeaderMap,
) -> (r: CallbackStep<S>)
    ensures
        begins(
            *config,
            callback_params(
                query_params(
                    match query {
                        Some(q) => q@,
                        None => ""@,
                    },
                ),
            ),
            request_cookies(*headers),
            r,
        ),
{
    let text = match query {
        Some(q) => q,
        None => "",
    };
    let params = CallbackParams::from_query(text);
    begin_with_params(config, params, headers)
}

/// The head of the redirect after a login.
pub open spec fn return_head(
    config: LoginConfig,
    original_url: Seq<char>,
    cookie_name: Seq<char>,
) -> Head {
    Head::new(302).with(HeaderField::Location, original_url).with(
        HeaderField::SetCookie,
        login_cookie_line(
            cookie_name,
            ""@,
            config.browser_callback_path@,
            "0"@,
            config.secure,
        ),
    )
}

/// The redirect after a login: back to the original URL, with the login-state
/// cookie cleared.
pub fn return_redirect(config: &LoginConfig, original_url: &str, cookie_name: &str) -> (r: Result<
    pingora_http::ResponseHeader,
    ResponseError,
>)
    ensures
        r is Ok == (header_safe(original_url@) && header_safe(cookie_name@) && header_safe(
            config.browser_callback_path@,
        )),
        r matches Ok(h) ==> head_of(h) == return_head(*config, original_url@, cookie_name@)
            && response_names(h) <= 2,
        r matches Err(e) ==> e.says(
            if header_safe(original_url@) {
                "failed to clear login cookie header"@
            } else {
                "failed to set Location header"@
            },
            Some(bad_insert_text()),
        ),
{
    let line = login_cookie(
        cookie_name,
        "",
        config.browser_callback_path.as_str(),
        "0",
        config.secure,
    );
    proof {
        reveal_strlit("");
        reveal_strlit("0");
        lemma_login_cookie_safe(
            cookie_name@,
            ""@,
            config.browser_callback_path@,
            "0"@,
            config.secure,
        );
    }
    let mut resp = match start_response(302, "failed to build callback redirect") {
        Ok(h) => h,
        Err(e) => return Err(e),
    };
    if let Err(e) = put_header(
        &mut resp,
        HeaderField::Location,
        original_url,
        "failed to set Location header",
    ) {
        return Err(e);
    }
    if let Err(e) = put_header(
        &mut resp,
        HeaderField::SetCookie,
        line.as_str(),
        "failed to clear login cookie header",
    ) {
        return Err(e);
    }
    Ok(resp)
}

/// A step after the first one: in each state one event leads on, and whatever
/// else happens is answered with an error page.
pub open spec fn goes_on<S>(
    config: LoginConfig,
    state: CallbackState,
    event: CallbackEvent<S>,
    step: CallbackStep<S>,
) -> bool {
    match state {
        CallbackState::Unsealing(x) => match event {
            CallbackEvent::Unsealed => {
                &&& step.0 == Some(CallbackState::Reading(x))
                &&& step.1 is ReadLoginState
            },
            _ => fails(step, 400, "state cookie decryption failed"@),
        },
        CallbackState::Reading(x) => match event {
            CallbackEvent::Read(url) => {
                &&& step.0 == Some(
                    (CallbackState::Exchanging { cookie_name: x.cookie_name, original_url: url }),
                )
                &&& step.1 == (CallbackAction::<S>::Exchange {
                    code: x.code,
                    state: x.state,
                    iss: x.iss,
                })
            },
            _ => fails(step, 500, "corrupt login state"@),
        },
        CallbackState::Exchanging { cookie_name, original_url } => match event {
            CallbackEvent::Exchanged => {
                &&& step.0 == Some((CallbackState::Creating { cookie_name, original_url }))
                &&& step.1 is CreateSession
            },
            _ => fails(step, 502, "token exchange failed"@),
        },
        CallbackState::Creating { cookie_name, original_url } => match event {
            CallbackEvent::Created(session) => if header_safe(original_url@) && header_safe(cookie_name@)
                && header_safe(config.browser_callback_path@) {
                &&& step.0 == Some(CallbackState::Saving)
                &&& step.1 matches CallbackAction::SaveSession { session: s, response: h }
                &&& s == session
                &&& head_of(h) == return_head(config, original_url@, cookie_name@)
                &&& response_names(h) <= 2
            } else {
                &&& step.0 is None
                &&& step.1 matches CallbackAction::Abort(e)
                &&& e.says(
                    if header_safe(original_url@) {
                        "failed to clear login cookie header"@
                    } else {
                        "failed to set Location header"@
                    },
                    Some(bad_insert_text()),
                )
            },
            _ => fails(step, 500, "failed to create session"@),
        },
        CallbackState::Saving => match event {
            CallbackEvent::Saved(response) => {
                &&& step.0 is None
                &&& step.1 == CallbackAction::<S>::Send(response)
            },
            _ => fails(step, 500, "failed to save session"@),
        },
    }
}

/// The next step of answering a callback.
///
/// The login-state cookie must unseal and hold a login state; the code must be
/// exchanged, and the session created and saved, before the browser is sent
/// back. Whatever fails is answered with an error page.
pub fn callback_step<S>(
    config: &LoginConfig,
    state: CallbackState,
    event: CallbackEvent<S>,
) -> (r: CallbackStep<S>)
    ensures
        goes_on(*config, state, event, r),
{
    match state {
        CallbackState::Unsealing(x) => match event {
            CallbackEvent::Unsealed => (
                Some(CallbackState::Reading(x)),
                CallbackAction::ReadLoginState,
            ),
            _ => failure(400, "state cookie decryption failed"),
        },
        CallbackState::Reading(x) => match event {
            CallbackEvent::Read(original_url) => (
                Some(CallbackState::Exchanging { cookie_name: x.cookie_name, original_url }),
                CallbackAction::Exchange { code: x.code, state: x.state, iss: x.iss },
            ),
            _ => failure(500, "corrupt login state"),
        },
        CallbackState::Exchanging { cookie_name, original_url } => match event {
            CallbackEvent::Exchanged => (
                Some(CallbackState::Creating { cookie_name, original_url }),
                CallbackAction::CreateSession,
            ),
            _ => failure(502, "token exchange failed"),
        },
        CallbackState::Creating { cookie_name, original_url } => match event {
            CallbackEvent::Created(session) => match return_redirect(
                config,
                original_url.as_str(),
                cookie_name.as_str(),
            ) {
                Ok(response) => (
                    Some(CallbackState::Saving),
                    CallbackAction::SaveSession { session, response },
                ),
                Err(e) => (None, CallbackAction::Abort(e)),
            },
            _ => failure(500, "failed to create session"),
        },
        CallbackState::Saving => match event {
            CallbackEvent::Saved(response) => (None, CallbackAction::Send(response)),
            _ => failure(500, "failed to save session"),
        },
    }
}

// ── Laws ─────────────────────────────────────────────────────────────────────

/// One step of a run: the state, the event, and what followed.
pub struct Move<S> {
    pub state: CallbackState,
    pub event: CallbackEvent<S>,
    pub step: CallbackStep<S>,
}

/// A run of the callback flow: every step follows the rules and starts in the
/// state that the one before it led to.
pub open spec fn run<S>(config: LoginConfig, moves: Seq<Move<S>>) -> bool {
    &&& forall|i: int|
        0 <= i < moves.len() ==> goes_on(
            config,
            (#[trigger] moves[i]).state,
            moves[i].event,
            moves[i].step,
        )
    &&& forall|i: int|
        0 < i < moves.len() ==> moves[i - 1].step.0 == Some((#[trigger] moves[i]).state)
}

/// A session is saved, and the browser sent back, only after the login-state
/// cookie unsealed, held a login state, the code was exchanged and the session
/// created, in this order; and the browser is then sent to the URL that the
/// login state held, with the cookie of this flow cleared.
pub proof fn law_session_only_after_every_check<S>(
    config: LoginConfig,
    moves: Seq<Move<S>>,
    exchange: Exchange,
)
    requires
        run(config, moves),
        moves.len() > 0,
        moves[0].state == CallbackState::Unsealing(exchange),
        moves.last().step.1 is SaveSession,
    ensures
        moves.len() == 4,
        moves[0].event is Unsealed,
        moves[1].event is Read,
        moves[2].event is Exchanged,
        moves[3].event is Created,
        moves[3].step.1->session == moves[3].event->Created_0,
        moves[1].step.1 == (CallbackAction::<S>::Exchange {
            code: exchange.code,
            state: exchange.state,
            iss: exchange.iss,
        }),
        head_of(moves[3].step.1->response) == return_head(
            config,
            moves[1].event->Read_0@,
            exchange.cookie_name@,
        ),
{
    lemma_run_order(config, moves, exchange);
    assert(goes_on(config, moves.last().state, moves.last().event, moves.last().step));
}

/// The browser is sent back only after the session was saved.
pub proof fn law_sent_back_only_with_a_saved_session<S>(
    config: LoginConfig,
    moves: Seq<Move<S>>,
    exchange: Exchange,
)
    requires
        run(config, moves),
        moves.len() > 0,
        moves[0].state == CallbackState::Unsealing(exchange),
        moves.last().step.1 is Send,
    ensures
        moves.len() == 5,
        moves[3].step.1 is SaveSession,
        moves[4].event is Saved,
        moves[4].step.1 == CallbackAction::<S>::Send(moves[4].event->Saved_0),
{
    lemma_run_order(config, moves, exchange);
    assert(goes_on(config, moves.last().state, moves.last().event, moves.last().step));
}

/// The states of a run come in one order, each after the event that leads on.
proof fn lemma_run_order<S>(config: LoginConfig, moves: Seq<Move<S>>, exchange: Exchange)
    requires
        run(config, moves),
        moves.len() > 0,
        moves[0].state == CallbackState::Unsealing(exchange),
    ensures
        moves.len() <= 5,
        moves.len() > 1 ==> moves[0].event is Unsealed && moves[1].state == CallbackState::Reading(
            exchange,
        ),
        moves.len() > 2 ==> moves[1].event is Read && moves[2].state == (CallbackState::Exchanging {
            cookie_name: exchange.cookie_name,
            original_url: moves[1].event->Read_0,
        }) && moves[1].step.1 == (CallbackAction::<S>::Exchange {
            code: exchange.code,
            state: exchange.state,
            iss: exchange.iss,
        }),
        moves.len() > 3 ==> moves[2].event is Exchanged && moves[3].state == (
        CallbackState::Creating {
            cookie_name: exchange.cookie_name,
            original_url: moves[1].event->Read_0,
        }),
        moves.len() > 4 ==> moves[3].event is Created && moves[4].state is Saving
            && moves[3].step.1 is SaveSession,
{
    assert(goes_on(config, moves[0].state, moves[0].event, moves[0].step));
    if moves.len() > 1 {
        assert(moves[0].step.0 == Some(moves[1].state));
        assert(goes_on(config, moves[1].state, moves[1].event, moves[1].step));
    }
    if moves.len() > 2 {
        assert(moves[1].step.0 == Some(moves[2].state));
        assert(goes_on(config, moves[2].state, moves[2].event, moves[2].step));
    }
    if moves.len() > 3 {
        assert(moves[2].step.0 == Some(moves[3].state));
        assert(goes_on(config, moves[3].state, moves[3].event, moves[3].step));
    }
    if moves.len() > 4 {
        assert(moves[3].step.0 == Some(moves[4].state));
        assert(goes_on(config, moves[4].state, moves[4].event, moves[4].step));
    }
    if moves.len() > 5 {
        assert(moves[4].step.0 == Some(moves[5].state));
    }
}

/// A callback that brings back the cookie that the redirect set, among whatever
/// other cookies, unseals exactly what was sealed, under the same `state` value.
pub proof fn law_callback_unseals_what_was_sealed<S>(
    config: LoginConfig,
    params: ParamsView,
    jars: Seq<Seq<Pair>>,
    text: Seq<char>,
    bundle: Seq<u8>,
    step: CallbackStep<S>,
)
    requires
        params.error is None,
        params.code is Some,
        params.state is Some,
        each_fits(jars),
        first_value(all_of(jars), flow_cookie_name(config, params.state->0)) == Some(text),
        base64_bytes(text) == Some(bundle),
        begins(config, params, received(jars), step),
    ensures
        step.1 is Unseal,
        step.1->Unseal_bundle@ == bundle,
        Some(step.1->Unseal_aad@) == params.state,
{
    law_pointer_cookie_round_trip(jars, flow_cookie_name(config, params.state->0), text, bundle);
}

/// The head of the response that a redirect came to, if it came to one.
pub open spec fn redirect_answer<S>(step: RedirectStep<S>) -> Option<Head> {
    match step.1 {
        RedirectAction::Delete { response, .. } => Some(head_of(response)),
        RedirectAction::Send(response) => Some(head_of(response)),
        _ => None,
    }
}

/// A login leads back to where it began. Take a redirect for the request `req`
/// whose grant has the value `flow`, and which sets the cookie of that flow to
/// the sealed login state `bundle`; a callback with the same `state` value that
/// brings the cookie back, among whatever others; and a run of the callback
/// that reads the URL which was sealed and ends with the browser sent back.
///
/// The callback then unseals what was sealed, under the same associated data,
/// and saves the created session once, to a response that leads to the
/// client-facing URL of `req` and clears the cookie that the redirect set, under
/// the same name and path.
pub proof fn law_login_leads_back<S>(
    config: LoginConfig,
    req: UriView,
    flow: String,
    location: String,
    bundle: Vec<u8>,
    expired: Option<S>,
    start: RedirectState<S>,
    first: RedirectStep<S>,
    second: RedirectStep<S>,
    params: ParamsView,
    jars: Seq<Seq<Pair>>,
    begun: CallbackStep<S>,
    moves: Seq<Move<S>>,
)
    requires
        starts(config, req, expired, start),
        redirects(config, start, (RedirectEvent::Started { state: flow, location }), first),
        redirects(config, first.0->0, RedirectEvent::Sealed(bundle), second),
        !(second.1 is Abort),
        params.error is None,
        params.code is Some,
        params.state == Some(flow@),
        each_fits(jars),
        first_value(all_of(jars), flow_cookie_name(config, flow@)) == Some(base64_text(bundle@)),
        begins(config, params, received(jars), begun),
        run(config, moves),
        moves.len() > 0,
        begun.0 == Some(moves[0].state),
        moves.last().step.1 is Send,
        moves[1].event is Read ==> moves[1].event->Read_0@ == first.1->Seal_original_url@,
    ensures
        first.1 is Seal,
        first.1->Seal_original_url@ == return_url(config, req),
        first.1->Seal_aad@ == flow@,
        begun.1 is Unseal,
        begun.1->Unseal_bundle@ == bundle@,
        begun.1->Unseal_aad@ == flow@,
        moves.len() == 5,
        forall|i: int| 0 <= i < 5 ==> ((#[trigger] moves[i]).step.1 is SaveSession <==> i == 3),
        moves[3].event is Created,
        moves[3].step.1->session == moves[3].event->Created_0,
        head_of(moves[3].step.1->response) == return_head(
            config,
            return_url(config, req),
            flow_cookie_name(config, flow@),
        ),
        moves[4].event is Saved,
        moves[4].step.1 == CallbackAction::<S>::Send(moves[4].event->Saved_0),
        redirect_answer(second) == Some(redirect_head(config, flow@, location@, bundle@)),
{
    law_callback_unseals_what_was_sealed(
        config,
        params,
        jars,
        base64_text(bundle@),
        bundle@,
        begun,
    );
    let exchange = moves[0].state->Unsealing_0;
    law_sent_back_only_with_a_saved_session(config, moves, exchange);
    lemma_run_order(config, moves, exchange);
    assert forall|i: int| 0 <= i < 5 implies ((#[trigger] moves[i]).step.1 is SaveSession <==> i
        == 3) by {
        assert(goes_on(config, moves[i].state, moves[i].event, moves[i].step));
    }
}

/// The heads of a login and of its end, read header by header: the redirect
/// sets one cookie, for ten minutes; the answer to the callback leads to the
/// given URL and clears that cookie, under the same name and path.
pub proof fn law_login_cookie_is_cleared(
    config: LoginConfig,
    flow: Seq<char>,
    location: Seq<char>,
    bundle: Seq<u8>,
    url: Seq<char>,
)
    ensures
        ({
            let name = flow_cookie_name(config, flow);
            let path = config.browser_callback_path@;
            let out = redirect_head(config, flow, location, bundle);
            let back = return_head(config, url, name);
            &&& out.status == 302 && back.status == 302
            &&& out.values(HeaderField::Location) == encoded(seq![location])
            &&& out.values(HeaderField::SetCookie) == encoded(
                seq![login_cookie_line(name, base64_text(bundle), path, "600"@, config.secure)],
            )
            &&& back.values(HeaderField::Location) == encoded(seq![url])
            &&& back.values(HeaderField::SetCookie) == encoded(
                seq![login_cookie_line(name, ""@, path, "0"@, config.secure)],
            )
        }),
{
    lemma_keys_distinct();
    let name = flow_cookie_name(config, flow);
    let path = config.browser_callback_path@;
    let out = redirect_head(config, flow, location, bundle);
    let back = return_head(config, url, name);
    assert(out.values(HeaderField::Location) =~= encoded(seq![location]));
    assert(out.values(HeaderField::SetCookie) =~= encoded(
        seq![login_cookie_line(name, base64_text(bundle), path, "600"@, config.secure)],
    ));
    assert(back.values(HeaderField::Location) =~= encoded(seq![url]));
    assert(back.values(HeaderField::SetCookie) =~= encoded(
        seq![login_cookie_line(name, ""@, path, "0"@, config.secure)],
    ));
}

/// The tokens are asked for with what the callback brought: whenever a run that
/// follows a callback comes to the exchange, the code is that of the parameter
/// `code`, the state that of `state`, and the issuer that of `iss`.
pub proof fn law_exchange_uses_the_parameters<S>(
    config: &LoginConfig,
    params: CallbackParams,
    headers: &http::HeaderMap,
    begun: CallbackStep<S>,
    moves: Seq<Move<S>>,
)
    requires
        call_ensures(begin_with_params::<S>, (config, params, headers), begun),
        moves.len() > 0,
        begun.0 == Some(moves[0].state),
        forall|i: int|
            0 <= i < moves.len() ==> call_ensures(
                callback_step::<S>,
                (config, (#[trigger] moves[i]).state, moves[i].event),
                moves[i].step,
            ),
        forall|i: int|
            0 < i < moves.len() ==> moves[i - 1].step.0 == Some((#[trigger] moves[i]).state),
    ensures
        !(begun.1 is Exchange),
        forall|i: int|
            0 <= i < moves.len() && (#[trigger] moves[i]).step.1 is Exchange ==> {
                &&& params.code is Some && moves[i].step.1->Exchange_code@ == params.code->0@
                &&& params.state is Some && moves[i].step.1->Exchange_state@ == params.state->0@
                &&& moves[i].step.1->Exchange_iss is Some <==> params.iss is Some
                &&& params.iss is Some ==> moves[i].step.1->Exchange_iss->0@ == params.iss->0@
            },
{
    let exchange = moves[0].state->Unsealing_0;
    assert(run(*config, moves));
    lemma_run_order(*config, moves, exchange);
    assert forall|i: int| 0 <= i < moves.len() && (#[trigger] moves[i]).step.1 is Exchange implies {
        &&& params.code is Some && moves[i].step.1->Exchange_code@ == params.code->0@
        &&& params.state is Some && moves[i].step.1->Exchange_state@ == params.state->0@
        &&& moves[i].step.1->Exchange_iss is Some <==> params.iss is Some
        &&& params.iss is Some ==> moves[i].step.1->Exchange_iss->0@ == params.iss->0@
    } by {
        assert(goes_on(*config, moves[i].state, moves[i].event, moves[i].step));
        assert(opt_text(exchange.iss) == opt_text(params.iss));
        if i > 1 {
            assert(goes_on(*config, moves[1].state, moves[1].event, moves[1].step));
        }
    }
}

/// What a callback brings decides how its answer begins. An error that the
/// authorization server reports is answered with 403. Without a code or a state,
/// or where no cookie of the request is that of the state, the answer is 400.
/// Otherwise the first cookie with the name decides: what it stands for in
/// Base64 is unsealed, with the state as associated data, and an ill-formed one
/// is answered with 400.
#[verifier::rlimit(30)]
pub proof fn law_callback_needs_its_cookie<S>(
    config: &LoginConfig,
    params: CallbackParams,
    headers: &http::HeaderMap,
    sent: Vec<(String, String)>,
    state: &str,
    path: &str,
    name: String,
    step: CallbackStep<S>,
)
    requires
        call_ensures(begin_with_params::<S>, (config, params, headers), step),
        call_ensures(cookies, (headers,), sent),
        path@ == config.browser_callback_path@,
        call_ensures(login_state_cookie_name, (state, config.secure, path), name),
        params.state is Some ==> state@ == params.state->0@,
    ensures
        params.error is Some ==> {
            &&& step.0 is None
            &&& step.1 is Fail
            &&& step.1->Fail_0.status == 403
            &&& step.1->Fail_0.message@ == match params.error_description {
                Some(description) => "authorization denied: "@ + description@,
                None => "authorization denied ("@ + params.error->0@ + ")"@,
            }
        },
        params.error is None && (params.code is None || params.state is None) ==> answered(
            step,
            400,
            "missing code or state"@,
        ),
        params.error is None && params.code is Some && params.state is Some ==> {
            &&& (forall|i: int| 0 <= i < sent@.len() ==> (#[trigger] sent@[i]).0@ != name@)
                ==> answered(step, 400, "invalid or missing state"@)
            &&& forall|i: int|
                0 <= i < sent@.len() && (#[trigger] sent@[i]).0@ == name@ && (forall|j: int|
                    0 <= j < i ==> (#[trigger] sent@[j]).0@ != name@) ==> match base64_bytes(
                    sent@[i].1@,
                ) {
                    Some(bundle) => {
                        &&& step.0 is Some
                        &&& step.0->0 is Unsealing
                        &&& step.0->0->Unsealing_0.code@ == params.code->0@
                        &&& step.0->0->Unsealing_0.state@ == params.state->0@
                        &&& step.0->0->Unsealing_0.cookie_name@ == name@
                        &&& step.1 is Unseal
                        &&& step.1->Unseal_bundle@ == bundle
                        &&& step.1->Unseal_aad@ == state@
                    },
                    None => answered(step, 400, "malformed state cookie"@),
                }
        },
{
    let all = pairs(sent@);
    if params.error is None && params.code is Some && params.state is Some {
        law_first_value(all, name@);
        assert(opt_text(params.state) == Some(state@));
        assert forall|i: int|
            0 <= i < sent@.len() && (#[trigger] sent@[i]).0@ == name@ && (forall|j: int|
                0 <= j < i ==> (#[trigger] sent@[j]).0@ != name@) implies first_value(all, name@)
            == Some(sent@[i].1@) by {
            assert forall|j: int| 0 <= j < i implies (#[trigger] all[j]).0 != all[i].0 by {
                assert(sent@[j].0@ != name@);
            }
            lemma_first_value(all, i);
        }
        if forall|i: int| 0 <= i < sent@.len() ==> (#[trigger] sent@[i]).0@ != name@ {
            assert forall|i: int| 0 <= i < all.len() implies (#[trigger] all[i]).0 != name@ by {
                assert(sent@[i].0@ != name@);
            }
        }
    }
}

/// A callback is answered with an error page that has this status and message.
pub open spec fn answered<S>(step: CallbackStep<S>, status: u16, message: Seq<char>) -> bool {
    &&& step.0 is None
    &&& step.1 is Fail
    &&& step.1->Fail_0.status == status
    &&& step.1->Fail_0.message@ == message
}

/// In each state of the answer to a callback one event leads on, and every other
/// one ends it with an error page: 400 where the cookie does not unseal, 502
/// where the exchange fails, and 500 for what fails on this side.
pub proof fn law_callback_goes_on_by_events<S>(
    config: &LoginConfig,
    state: CallbackState,
    event: CallbackEvent<S>,
    step: CallbackStep<S>,
)
    requires
        call_ensures(callback_step::<S>, (config, state, event), step),
    ensures
        state is Unsealing ==> if event is Unsealed {
            step.1 is ReadLoginState && step.0 == Some(CallbackState::Reading(state->Unsealing_0))
        } else {
            answered(step, 400, "state cookie decryption failed"@)
        },
        state is Reading ==> if event is Read {
            &&& step.0 == Some(
                (CallbackState::Exchanging {
                    cookie_name: state->Reading_0.cookie_name,
                    original_url: event->Read_0,
                }),
            )
            &&& step.1 is Exchange
            &&& step.1->Exchange_code == state->Reading_0.code
            &&& step.1->Exchange_state == state->Reading_0.state
            &&& step.1->Exchange_iss == state->Reading_0.iss
        } else {
            answered(step, 500, "corrupt login state"@)
        },
        state is Exchanging ==> if event is Exchanged {
            &&& step.0 == Some(
                (CallbackState::Creating {
                    cookie_name: state->Exchanging_cookie_name,
                    original_url: state->Exchanging_original_url,
                }),
            )
            &&& step.1 is CreateSession
        } else {
            answered(step, 502, "token exchange failed"@)
        },
        state is Creating && !(event is Created) ==> answered(
            step,
            500,
            "failed to create session"@,
        ),
        state is Saving ==> if event is Saved {
            step.0 is None && step.1 == CallbackAction::<S>::Send(event->Saved_0)
        } else {
            answered(step, 500, "failed to save session"@)
        },
{
}

/// A session that was created is saved to the redirect back, and the callback is
/// given up where that redirect cannot be made.
pub proof fn law_created_session_is_saved<S>(
    config: &LoginConfig,
    cookie_name: String,
    original_url: String,
    name: &str,
    url: &str,
    made: Result<pingora_http::ResponseHeader, ResponseError>,
    session: S,
    step: CallbackStep<S>,
)
    requires
        name@ == cookie_name@,
        url@ == original_url@,
        call_ensures(return_redirect, (config, url, name), made),
        call_ensures(
            callback_step::<S>,
            (
                config,
                CallbackState::Creating { cookie_name, original_url },
                CallbackEvent::Created(session),
            ),
            step,
        ),
    ensures
        made is Ok ==> {
            &&& step.0 == Some(CallbackState::Saving)
            &&& step.1 is SaveSession
            &&& step.1->session == session
            &&& response_status(step.1->response) == response_status(made->Ok_0)
            &&& response_fields(step.1->response) == response_fields(made->Ok_0)
        },
        made is Err ==> {
            &&& step.0 is None
            &&& step.1 is Abort
            &&& step.1->Abort_0.context@ == made->Err_0.context@
        },
{
    if made is Ok {
        let a = head_of(step.1->response);
        let b = head_of(made->Ok_0);
        assert(a == b);
        assert(a.status == response_status(step.1->response));
        assert(a.fields == response_fields(step.1->response));
    }
}

/// The answer to a login that went well: a redirect to the URL that the login
/// state held, which clears the login-state cookie under its name and path, and
/// has no other header. It is given up exactly where the URL, the name or the
/// path is not fit for a header.
#[verifier::rlimit(30)]
pub proof fn law_return_redirect(
    config: &LoginConfig,
    url: &str,
    name: &str,
    r: Result<pingora_http::ResponseHeader, ResponseError>,
)
    requires
        call_ensures(return_redirect, (config, url, name), r),
    ensures
        r is Err <==> !(header_safe(url@) && header_safe(name@) && header_safe(
            config.browser_callback_path@,
        )),
        r is Err ==> r->Err_0.context@ == if header_safe(url@) {
            "failed to clear login cookie header"@
        } else {
            "failed to set Location header"@
        },
        r is Err ==> r->Err_0.cause is Some && r->Err_0.cause->0@
            == " InvalidHTTPHeader context: invalid value while insert"@,
        r is Ok ==> response_status(r->Ok_0) == 302,
        r is Ok ==> response_fields(r->Ok_0) == map![
            "location"@ => seq![vstd::utf8::encode_utf8(url@)],
            "set-cookie"@ => seq![vstd::utf8::encode_utf8(
                name@ + "=; HttpOnly; SameSite=Lax; Path="@ + config.browser_callback_path@
                    + "; Max-Age=0"@ + if config.secure { "; Secure"@ } else { ""@ },
            )]
        ],
{
    reveal_strlit("");
    reveal_strlit("0");
    reveal_strlit("=");
    reveal_strlit("; HttpOnly; SameSite=Lax; Path=");
    reveal_strlit("=; HttpOnly; SameSite=Lax; Path=");
    reveal_strlit("; Max-Age=");
    reveal_strlit("; Max-Age=0");
    if r is Ok {
        let path = config.browser_callback_path@;
        let tail = if config.secure {
            "; Secure"@
        } else {
            ""@
        };
        let line = name@ + "=; HttpOnly; SameSite=Lax; Path="@ + path + "; Max-Age=0"@ + tail;
        assert(login_cookie_line(name@, ""@, path, "0"@, config.secure) == line);
        assert(response_fields(r->Ok_0) =~= map![
            "location"@ => seq![vstd::utf8::encode_utf8(url@)],
            "set-cookie"@ => seq![vstd::utf8::encode_utf8(line)]
        ]);
    }
}

/// The parameters of a callback are read by their names. A parameter that occurs
/// once has its value, one that does not occur has none; and where any of them
/// occurs twice, none has a value.
pub proof fn law_callback_parameters_by_name(params: &Vec<(String, String)>, r: CallbackParams)
    requires
        call_ensures(CallbackParams::from_pairs, (params,), r),
    ensures
        picks(params@, "code"@, r.code),
        picks(params@, "state"@, r.state),
        picks(params@, "iss"@, r.iss),
        picks(params@, "error"@, r.error),
        picks(params@, "error_description"@, r.error_description),
{
    let all = pairs(params@);
    lemma_picks(params@, "code"@, r.code);
    lemma_picks(params@, "state"@, r.state);
    lemma_picks(params@, "iss"@, r.iss);
    lemma_picks(params@, "error"@, r.error);
    lemma_picks(params@, "error_description"@, r.error_description);
}

/// Two of the parameters at the given places have one and the same name, and it
/// is that of a callback parameter.
pub open spec fn clash(params: Seq<(String, String)>, i: int, j: int) -> bool {
    let name = params[i].0@;
    &&& 0 <= i < j < params.len()
    &&& params[j].0@ == name
    &&& name == "code"@ || name == "state"@ || name == "iss"@ || name == "error"@ || name
        == "error_description"@
}

/// The value that a list of parameters gives under a name: where two callback
/// parameters clash there is none, and otherwise it is the value of the one with
/// that name.
pub open spec fn picks(
    params: Seq<(String, String)>,
    name: Seq<char>,
    value: Option<String>,
) -> bool {
    if exists|i: int, j: int| #[trigger] clash(params, i, j) {
        value is None
    } else {
        match value {
            Some(v) => exists|i: int|
                0 <= i < params.len() && (#[trigger] params[i]).0@ == name && params[i].1@ == v@,
            None => forall|i: int| 0 <= i < params.len() ==> (#[trigger] params[i]).0@ != name,
        }
    }
}

/// A name occurs twice exactly where two places have it.
proof fn lemma_occurrences(params: Seq<Pair>, name: Seq<char>)
    ensures
        occurrences(params, name) == 0 <==> forall|i: int|
            0 <= i < params.len() ==> (#[trigger] params[i]).0 != name,
        occurrences(params, name) <= 1 <==> forall|i: int, j: int|
            0 <= i < j < params.len() ==> !((#[trigger] params[i]).0 == name && (
            #[trigger] params[j]).0 == name),
    decreases params.len(),
{
    if params.len() > 0 {
        let fewer = params.drop_last();
        let m = params.len() - 1;
        lemma_occurrences(fewer, name);
        assert(forall|i: int| 0 <= i < m ==> fewer[i] == #[trigger] params[i]);
        if occurrences(params, name) == 0 {
            assert forall|i: int| 0 <= i < params.len() implies (#[trigger] params[i]).0 != name by {
                if i < m {
                    assert(fewer[i].0 != name);
                }
            }
        } else if params[m].0 != name {
            let i = choose|i: int| 0 <= i < fewer.len() && (#[trigger] fewer[i]).0 == name;
            assert(params[i].0 == name);
        }
        if occurrences(params, name) <= 1 {
            assert forall|i: int, j: int| 0 <= i < j < params.len() implies !((
            #[trigger] params[i]).0 == name && (#[trigger] params[j]).0 == name) by {
                if j < m {
                    assert(!(fewer[i].0 == name && fewer[j].0 == name));
                } else if params[m].0 == name {
                    assert(fewer[i].0 != name);
                }
            }
        } else if occurrences(fewer, name) <= 1 {
            let i = choose|i: int| 0 <= i < fewer.len() && (#[trigger] fewer[i]).0 == name;
            assert(params[i].0 == name && params[m].0 == name);
        } else {
            let (i, j) = choose|i: int, j: int|
                0 <= i < j < fewer.len() && (#[trigger] fewer[i]).0 == name && (
                #[trigger] fewer[j]).0 == name;
            assert(params[i].0 == name && params[j].0 == name);
        }
    }
}

/// A parameter is unambiguous exactly where no two callback parameters clash.
proof fn lemma_picks(params: Seq<(String, String)>, name: Seq<char>, value: Option<String>)
    requires
        opt_text(value) == param(pairs(params), name),
    ensures
        picks(params, name, value),
{
    let all = pairs(params);
    lemma_occurrences(all, "code"@);
    lemma_occurrences(all, "state"@);
    lemma_occurrences(all, "iss"@);
    lemma_occurrences(all, "error"@);
    lemma_occurrences(all, "error_description"@);
    assert(forall|i: int|
        0 <= i < params.len() ==> #[trigger] all[i] == ((#[trigger] params[i]).0@, params[i].1@));
    if exists|i: int, j: int| #[trigger] clash(params, i, j) {
        let (i, j) = choose|i: int, j: int| #[trigger] clash(params, i, j);
        assert(all[i].0 == params[i].0@ && all[j].0 == params[j].0@);
        assert(!unambiguous(all));
    } else {
        assert(unambiguous(all)) by {
            lemma_no_clash(params, "code"@);
            lemma_no_clash(params, "state"@);
            lemma_no_clash(params, "iss"@);
            lemma_no_clash(params, "error"@);
            lemma_no_clash(params, "error_description"@);
        }
        law_first_value(all, name);
        match value {
            Some(v) => {
                let i = choose|i: int| 0 <= i < all.len() && #[trigger] all[i] == (name, v@);
                assert(params[i].0@ == name);
            },
            None => {
                assert forall|i: int| 0 <= i < params.len() implies (#[trigger] params[i]).0@
                    != name by {
                    assert(all[i].0 != name);
                }
            },
        }
    }
}

/// Without a clash a callback parameter occurs at most once.
proof fn lemma_no_clash(params: Seq<(String, String)>, name: Seq<char>)
    requires
        forall|i: int, j: int| !#[trigger] clash(params, i, j),
        name == "code"@ || name == "state"@ || name == "iss"@ || name == "error"@ || name
            == "error_description"@,
    ensures
        occurrences(pairs(params), name) <= 1,
{
    let all = pairs(params);
    lemma_occurrences(all, name);
    assert forall|i: int, j: int| 0 <= i < j < all.len() implies !((#[trigger] all[i]).0 == name && (
    #[trigger] all[j]).0 == name) by {
        assert(!clash(params, i, j));
    }
}

/// A callback is answered by the parameters in its query string; without one
/// there are none. The answer begins as it does for those parameters.
pub proof fn law_callback_is_read_from_its_query<S>(
    config: &LoginConfig,
    query: Option<&str>,
    text: &str,
    params: CallbackParams,
    headers: &http::HeaderMap,
    a: CallbackStep<S>,
    b: CallbackStep<S>,
)
    requires
        query is Some ==> text@ == query->0@,
        query is None ==> text@.len() == 0,
        call_ensures(CallbackParams::from_query, (text,), params),
        call_ensures(begin_with_params::<S>, (config, params, headers), a),
        call_ensures(begin_callback::<S>, (config, query, headers), b),
    ensures
        a.0 is Some <==> b.0 is Some,
        a.1 is Unseal <==> b.1 is Unseal,
        a.1 is Unseal ==> {
            &&& a.1->Unseal_bundle@ == b.1->Unseal_bundle@
            &&& a.1->Unseal_aad@ == b.1->Unseal_aad@
            &&& a.0->0->Unsealing_0.code@ == b.0->0->Unsealing_0.code@
            &&& a.0->0->Unsealing_0.state@ == b.0->0->Unsealing_0.state@
            &&& opt_text(a.0->0->Unsealing_0.iss) == opt_text(b.0->0->Unsealing_0.iss)
            &&& a.0->0->Unsealing_0.cookie_name@ == b.0->0->Unsealing_0.cookie_name@
        },
        a.1 is Fail <==> b.1 is Fail,
        a.1 is Fail ==> a.1->Fail_0.status == b.1->Fail_0.status && a.1->Fail_0.message@
            == b.1->Fail_0.message@,
        a.1 is Unseal || a.1 is Fail,
{
    reveal_strlit("");
    if query is None {
        assert(text@ == ""@);
    }
}

/// The parameters of a query string are those of the list that it holds.
pub proof fn law_query_parameters(
    query: &str,
    list: &Vec<(String, String)>,
    a: CallbackParams,
    b: CallbackParams,
)
    requires
        pairs(list@) == query_params(query@),
        call_ensures(CallbackParams::from_query, (query,), a),
        call_ensures(CallbackParams::from_pairs, (list,), b),
    ensures
        opt_text(a.code) == opt_text(b.code),
        opt_text(a.state) == opt_text(b.state),
        opt_text(a.iss) == opt_text(b.iss),
        opt_text(a.error) == opt_text(b.error),
        opt_text(a.error_description) == opt_text(b.error_description),
{
}

} // verus!
