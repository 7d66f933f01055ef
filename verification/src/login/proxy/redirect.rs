//! The redirect to the authorization server.

use vstd::prelude::*;

use crate::headers::{
    bad_insert_text, head_of, header_safe, put_header, response_fields, response_names,
    response_status, start_response, Head, HeaderField, ResponseError,
};
use crate::login::config::LoginConfig;
use crate::login::cookie::{
    all_of, base64_bytes, base64_text, each_fits, encode_value, first_value, login_cookie_name,
    login_state_cookie_name, received, Pair,
};
use crate::login::cookie_session::lemma_url_safe_is_header_safe;
use crate::login::proxy::respond::{lemma_login_cookie_safe, login_cookie, login_cookie_line};
use crate::login::store_session::{law_pointer_cookie_round_trip, pointer_in};
use crate::login::url::{client_url, origin, origin_of, original_url};
use crate::text::{cat, opt_text};
use crate::uri::{Uri, UriView};

verus! {

/// The URL to return to after login: the client-facing URL of the request, or
/// the root of the base URL where it cannot be reconstructed.
pub open spec fn return_url(config: LoginConfig, req: UriView) -> Seq<char> {
    match client_url(config.base_url@, opt_text(config.strip_prefix), req) {
        Some(u) => u,
        None => origin(config.base_url@) + "/"@,
    }
}

/// The URL to return to after login.
pub fn login_target(config: &LoginConfig, req_uri: &Uri) -> (r: String)
    ensures
        r@ == return_url(*config, req_uri@),
{
    match original_url(config, req_uri) {
        Some(u) => u,
        None => {
            let root = origin_of(&config.base_url);
            cat(root.as_str(), "/")
        },
    }
}

/// The name of the login-state cookie of a flow.
pub open spec fn flow_cookie_name(config: LoginConfig, state: Seq<char>) -> Seq<char> {
    login_cookie_name(state, config.secure, config.browser_callback_path@)
}

/// The head of the redirect to the authorization server.
pub open spec fn redirect_head(
    config: LoginConfig,
    state: Seq<char>,
    location: Seq<char>,
    bundle: Seq<u8>,
) -> Head {
    Head::new(302).with(HeaderField::Location, location).with(
        HeaderField::SetCookie,
        login_cookie_line(
            flow_cookie_name(config, state),
            base64_text(bundle),
            config.browser_callback_path@,
            "600"@,
            config.secure,
        ),
    )
}

/// The redirect to the authorization server, with the sealed login state in a
/// cookie that lives for ten minutes on the callback path.
///
/// Where the browser brings that cookie back, the sealed state is read from it.
pub fn login_redirect(config: &LoginConfig, state: &str, location: &str, bundle: &Vec<u8>) -> (r:
    Result<pingora_http::ResponseHeader, ResponseError>)
    ensures
        r is Ok == redirectable(*config, state@, location@),
        r matches Ok(h) ==> carries_login_state(*config, state@, location@, bundle@, h),
        r matches Err(e) ==> e.says(
            if header_safe(location@) {
                "failed to set login state cookie header"@
            } else {
                "failed to set Location header"@
            },
            Some(bad_insert_text()),
        ),
        forall|jars: Seq<Seq<Pair>>|
            each_fits(jars) && first_value(all_of(jars), flow_cookie_name(*config, state@)) == Some(
                base64_text(bundle@),
            ) ==> #[trigger] pointer_in(received(jars), flow_cookie_name(*config, state@)) == Some(
                bundle@,
            ),
{
    let name = login_state_cookie_name(
        state,
        config.secure,
        config.browser_callback_path.as_str(),
    );
    let value = encode_value(bundle);
    let line = login_cookie(
        name.as_str(),
        value.as_str(),
        config.browser_callback_path.as_str(),
        "600",
        config.secure,
    );
    proof {
        reveal_strlit("600");
        lemma_url_safe_is_header_safe(value@);
        lemma_login_cookie_safe(
            name@,
            value@,
            config.browser_callback_path@,
            "600"@,
            config.secure,
        );
        assert forall|jars: Seq<Seq<Pair>>|
            each_fits(jars) && first_value(all_of(jars), name@) == Some(
                value@,
            ) implies #[trigger] pointer_in(received(jars), name@) == Some(bundle@) by {
            law_pointer_cookie_round_trip(jars, name@, value@, bundle@);
        }
    }
    let mut resp = match start_response(302, "failed to build redirect response") {
        Ok(h) => h,
        Err(e) => return Err(e),
    };
    if let Err(e) = put_header(
        &mut resp,
        HeaderField::Location,
        location,
        "failed to set Location header",
    ) {
        return Err(e);
    }
    if let Err(e) = put_header(
        &mut resp,
        HeaderField::SetCookie,
        line.as_str(),
        "failed to set login state cookie header",
    ) {
        return Err(e);
    }
    Ok(resp)
}

/// Where the redirect stands.
pub enum RedirectState<S> {
    /// The grant is being started.
    Starting {
        /// The URL to return to after login.
        original_url: String,
        /// The session to delete on the same response.
        expired: Option<S>,
    },
    /// The login state is being sealed.
    Sealing {
        /// The `state` value of the flow.
        state: String,
        /// The URL of the authorization request.
        location: String,
        /// The session to delete on the same response.
        expired: Option<S>,
    },
    /// The expired session is being deleted.
    Deleting,
}

/// A step: the next state, unless the redirect is decided, and the action.
pub type RedirectStep<S> = (Option<RedirectState<S>>, RedirectAction<S>);

/// What happened.
pub enum RedirectEvent {
    /// The grant was started.
    Started {
        /// The `state` value of the flow.
        state: String,
        /// The URL of the authorization request.
        location: String,
    },
    /// The grant could not be started, with the reason.
    StartFailed(String),
    /// The login state was sealed.
    Sealed(Vec<u8>),
    /// The login state could not be written as JSON, with the reason.
    SerializeFailed(String),
    /// The login state could not be sealed, with the reason.
    SealFailed(String),
    /// The expired session was deleted, on this response.
    Deleted(pingora_http::ResponseHeader),
    /// The expired session could not be deleted, with what the store said.
    DeleteFailed(String),
}

/// What is to be done.
pub enum RedirectAction<S> {
    /// Seal the original URL and the pending grant, with the `state` value as
    /// associated data.
    Seal {
        /// The URL to return to after login.
        original_url: String,
        /// The associated data.
        aad: String,
    },
    /// Delete the expired session on this response.
    Delete {
        /// The session to delete.
        expired: S,
        /// The response that the deletion is written to.
        response: pingora_http::ResponseHeader,
    },
    /// Send the response.
    Send(pingora_http::ResponseHeader),
    /// Give up.
    Abort(ResponseError),
}

/// Begins a redirect for the given request. An expired session is deleted on the
/// response that redirects.
pub fn begin_redirect<S>(config: &LoginConfig, req_uri: &Uri, expired: Option<S>) -> (r:
    RedirectState<S>)
    ensures
        starts(*config, req_uri@, expired, r),
{
    RedirectState::Starting { original_url: login_target(config, req_uri), expired }
}

/// A redirect begins with the URL to return to after login.
pub open spec fn starts<S>(
    config: LoginConfig,
    req: UriView,
    session: Option<S>,
    state: RedirectState<S>,
) -> bool {
    &&& state matches RedirectState::Starting { original_url, expired }
    &&& original_url@ == return_url(config, req)
    &&& expired == session
}

/// The redirect is given up for the given reason.
pub open spec fn aborts<S>(
    step: RedirectStep<S>,
    reason: Seq<char>,
    cause: Option<Seq<char>>,
) -> bool {
    &&& step.0 is None
    &&& step.1 matches RedirectAction::Abort(e)
    &&& e.says(reason, cause)
}

/// Gives up the redirect.
fn abort<S>(context: &str) -> (r: RedirectStep<S>)
    ensures
        aborts(r, context@, None),
{
    (None, RedirectAction::Abort(ResponseError::new(context)))
}

/// Gives up the redirect because of something that failed.
fn abort_because<S>(context: &str, cause: String) -> (r: RedirectStep<S>)
    ensures
        aborts(r, context@, Some(cause@)),
{
    (None, RedirectAction::Abort(ResponseError::because(context, cause)))
}

/// What the redirect of a flow needs to be sent: an authorization URL, a cookie
/// name and a callback path that are fit for a header.
pub open spec fn redirectable(config: LoginConfig, state: Seq<char>, location: Seq<char>) -> bool {
    &&& header_safe(location)
    &&& header_safe(flow_cookie_name(config, state))
    &&& header_safe(config.browser_callback_path@)
}

/// The response that redirects the browser: the sealed login state is in its
/// cookie, and can be read back from there.
pub open spec fn carries_login_state(
    config: LoginConfig,
    state: Seq<char>,
    location: Seq<char>,
    bundle: Seq<u8>,
    response: pingora_http::ResponseHeader,
) -> bool {
    &&& head_of(response) == redirect_head(config, state, location, bundle)
    &&& response_names(response) <= 2
    &&& base64_bytes(base64_text(bundle)) == Some(bundle)
}

/// A step of a redirect: in each state one event leads on, and whatever else
/// happens ends the redirect.
///
/// Once the grant is started, the original URL is sealed with the `state` value
/// as associated data. The response is then built, with the sealed state in its
/// cookie; an expired session is deleted on it before it is sent.
pub open spec fn redirects<S>(
    config: LoginConfig,
    state: RedirectState<S>,
    event: RedirectEvent,
    step: RedirectStep<S>,
) -> bool {
    match state {
        RedirectState::Starting { original_url, expired } => match event {
            RedirectEvent::Started { state: value, location } => {
                &&& step.0 == Some((RedirectState::Sealing { state: value, location, expired }))
                &&& step.1 matches RedirectAction::Seal { original_url: url, aad }
                &&& url == original_url
                &&& aad@ == value@
            },
            RedirectEvent::StartFailed(cause) => aborts(
                step,
                "authorization request failed"@,
                Some(cause@),
            ),
            _ => aborts(step, "authorization request failed"@, None),
        },
        RedirectState::Sealing { state: value, location, expired } => match event {
            RedirectEvent::Sealed(bundle) => if !header_safe(location@) {
                aborts(step, "failed to set Location header"@, Some(bad_insert_text()))
            } else if !redirectable(config, value@, location@) {
                aborts(step, "failed to set login state cookie header"@, Some(bad_insert_text()))
            } else {
                match expired {
                    Some(session) => {
                        &&& step.0 == Some(RedirectState::<S>::Deleting)
                        &&& step.1 matches RedirectAction::Delete { expired: d, response }
                        &&& d == session
                        &&& carries_login_state(config, value@, location@, bundle@, response)
                    },
                    None => {
                        &&& step.0 is None
                        &&& step.1 matches RedirectAction::Send(response)
                        &&& carries_login_state(config, value@, location@, bundle@, response)
                    },
                }
            },
            RedirectEvent::SerializeFailed(cause) => aborts(
                step,
                "failed to serialize login state: "@ + cause@,
                None,
            ),
            RedirectEvent::SealFailed(cause) => aborts(
                step,
                "failed to seal login state cookie"@,
                Some(cause@),
            ),
            _ => aborts(step, "failed to seal login state cookie"@, None),
        },
        RedirectState::Deleting => match event {
            RedirectEvent::Deleted(response) => {
                &&& step.0 is None
                &&& step.1 == RedirectAction::<S>::Send(response)
            },
            RedirectEvent::DeleteFailed(cause) => aborts(
                step,
                "failed to delete expired session"@,
                Some(cause@),
            ),
            _ => aborts(step, "failed to delete expired session"@, None),
        },
    }
}

/// The next step of a redirect.
pub fn redirect_step<S>(config: &LoginConfig, state: RedirectState<S>, event: RedirectEvent) -> (r:
    RedirectStep<S>)
    ensures
        redirects(*config, state, event, r),
{
    match state {
        RedirectState::Starting { original_url, expired } => match event {
            RedirectEvent::Started { state: value, location } => {
                let aad = value.clone();
                (
                    Some(RedirectState::Sealing { state: value, location, expired }),
                    RedirectAction::Seal { original_url, aad },
                )
            },
            RedirectEvent::StartFailed(cause) => abort_because(
                "authorization request failed",
                cause,
            ),
            _ => abort("authorization request failed"),
        },
        RedirectState::Sealing { state: value, location, expired } => match event {
            RedirectEvent::Sealed(bundle) => match login_redirect(
                config,
                value.as_str(),
                location.as_str(),
                &bundle,
            ) {
                Ok(response) => match expired {
                    Some(s) => (
                        Some(RedirectState::Deleting),
                        RedirectAction::Delete { expired: s, response },
                    ),
                    None => (None, RedirectAction::Send(response)),
                },
                Err(e) => (None, RedirectAction::Abort(e)),
            },
            RedirectEvent::SerializeFailed(cause) => {
                let context = cat("failed to serialize login state: ", cause.as_str());
                abort(context.as_str())
            },
            RedirectEvent::SealFailed(cause) => abort_because(
                "failed to seal login state cookie",
                cause,
            ),
            _ => abort("failed to seal login state cookie"),
        },
        RedirectState::Deleting => match event {
            RedirectEvent::Deleted(response) => (None, RedirectAction::Send(response)),
            RedirectEvent::DeleteFailed(cause) => abort_because(
                "failed to delete expired session",
                cause,
            ),
            _ => abort("failed to delete expired session"),
        },
    }
}

// ── Laws ─────────────────────────────────────────────────────────────────────

/// The browser returns to the client-facing URL of the request, and to the root
/// of the base URL's origin where that URL cannot be told.
pub proof fn law_login_returns_to_the_request(
    config: &LoginConfig,
    req: &Uri,
    url: Option<String>,
    r: String,
)
    requires
        call_ensures(original_url, (config, req), url),
        call_ensures(login_target, (config, req), r),
    ensures
        url is Some ==> r@ == url->0@,
        url is None ==> r@ == (match config.base_url.scheme {
            Some(s) => s@,
            None => "https"@,
        }) + "://"@ + (match config.base_url.authority {
            Some(a) => a@,
            None => Seq::empty(),
        }) + seq!['/'],
{
    reveal_strlit("");
    assert(""@ == Seq::<char>::empty());
    reveal_strlit("/");
    assert("/"@ == seq!['/']);
}

/// The redirect to the authorization server leads to the URL of the request
/// there, and sets the cookie of the flow to the Base64 text of the sealed login
/// state, for ten minutes on the callback path. It has no other header.
#[verifier::rlimit(30)]
pub proof fn law_login_redirect(
    config: &LoginConfig,
    state: &str,
    path: &str,
    name: String,
    location: &str,
    bundle: &Vec<u8>,
    r: Result<pingora_http::ResponseHeader, ResponseError>,
)
    requires
        path@ == config.browser_callback_path@,
        call_ensures(login_state_cookie_name, (state, config.secure, path), name),
        call_ensures(login_redirect, (config, state, location, bundle), r),
    ensures
        r is Ok <==> header_safe(location@) && header_safe(name@) && header_safe(path@),
        r is Err ==> r->Err_0.context@ == if header_safe(location@) {
            "failed to set login state cookie header"@
        } else {
            "failed to set Location header"@
        },
        r is Err ==> r->Err_0.cause is Some && r->Err_0.cause->0@
            == " InvalidHTTPHeader context: invalid value while insert"@,
        r is Ok ==> response_status(r->Ok_0) == 302,
        r is Ok ==> response_fields(r->Ok_0) == map![
            "location"@ => seq![vstd::utf8::encode_utf8(location@)],
            "set-cookie"@ => seq![vstd::utf8::encode_utf8(
                name@ + "="@ + base64_text(bundle@) + "; HttpOnly; SameSite=Lax; Path="@ + path@
                    + "; Max-Age=600"@ + if config.secure { "; Secure"@ } else { ""@ },
            )]
        ],
{
    reveal_strlit("600");
    reveal_strlit("; Max-Age=");
    reveal_strlit("; Max-Age=600");
    if r is Ok {
        let tail = if config.secure {
            "; Secure"@
        } else {
            ""@
        };
        let line = name@ + "="@ + base64_text(bundle@) + "; HttpOnly; SameSite=Lax; Path="@ + path@
            + "; Max-Age=600"@ + tail;
        assert(login_cookie_line(name@, base64_text(bundle@), path@, "600"@, config.secure)
            == line);
        assert(response_fields(r->Ok_0) =~= map![
            "location"@ => seq![vstd::utf8::encode_utf8(location@)],
            "set-cookie"@ => seq![vstd::utf8::encode_utf8(line)]
        ]);
    }
}

/// How a redirect goes on. Once the grant is started, the URL to return to is
/// sealed under the `state` value. Once that is sealed, the response is the
/// redirect of this flow: an expired session is deleted on it, and it is sent at
/// once where there is none. After the deletion the response goes out as it came
/// back. Whatever else happens, the redirect is given up.
#[verifier::rlimit(30)]
pub proof fn law_redirect_goes_on_by_events<S>(
    config: &LoginConfig,
    state: RedirectState<S>,
    event: RedirectEvent,
    step: RedirectStep<S>,
)
    requires
        call_ensures(redirect_step::<S>, (config, state, event), step),
    ensures
        state is Starting && event is Started ==> {
            &&& step.0 == Some(
                (RedirectState::Sealing {
                    state: event->state,
                    location: event->location,
                    expired: state->Starting_expired,
                }),
            )
            &&& step.1 is Seal
            &&& step.1->Seal_original_url == state->original_url
            &&& step.1->Seal_aad@ == event->state@
        },
        state is Sealing && event is Sealed && !(step.1 is Abort) ==> match state->Sealing_expired {
            Some(expired) => {
                &&& step.0 == Some(RedirectState::<S>::Deleting)
                &&& step.1 is Delete
                &&& step.1->Delete_expired == expired
                &&& head_of(step.1->Delete_response) == redirect_head(
                    *config,
                    state->state@,
                    state->location@,
                    event->Sealed_0@,
                )
            },
            None => {
                &&& step.0 is None
                &&& step.1 is Send
                &&& head_of(step.1->Send_0) == redirect_head(
                    *config,
                    state->state@,
                    state->location@,
                    event->Sealed_0@,
                )
            },
        },
        state is Sealing && event is Sealed && header_safe(state->location@) && header_safe(
            flow_cookie_name(*config, state->state@),
        ) && header_safe(config.browser_callback_path@) ==> !(step.1 is Abort),
        state is Deleting && event is Deleted ==> step.0 is None && step.1
            == RedirectAction::<S>::Send(event->Deleted_0),
        !(state is Starting && event is Started) && !(state is Sealing && event is Sealed) && !(
        state is Deleting && event is Deleted) ==> step.0 is None && step.1 is Abort,
        state is Starting && step.1 is Abort ==> step.1->Abort_0.context@
            == "authorization request failed"@,
        state is Sealing && event is SerializeFailed ==> step.1->Abort_0.context@
            == "failed to serialize login state: "@ + event->SerializeFailed_0@
            && step.1->Abort_0.cause is None,
        state is Sealing && !(event is Sealed) && !(event is SerializeFailed)
            ==> step.1->Abort_0.context@ == "failed to seal login state cookie"@,
        state is Deleting && step.1 is Abort ==> step.1->Abort_0.context@
            == "failed to delete expired session"@,
        event is StartFailed && state is Starting ==> step.1->Abort_0.cause is Some
            && step.1->Abort_0.cause->0@ == event->StartFailed_0@,
        event is SealFailed && state is Sealing ==> step.1->Abort_0.cause is Some
            && step.1->Abort_0.cause->0@ == event->SealFailed_0@,
        event is DeleteFailed && state is Deleting ==> step.1->Abort_0.cause is Some
            && step.1->Abort_0.cause->0@ == event->DeleteFailed_0@,
{
}

/// A redirect begins with the URL to return to and the session that expired.
pub proof fn law_redirect_begins<S>(
    config: &LoginConfig,
    req: &Uri,
    expired: Option<S>,
    url: String,
    state: RedirectState<S>,
)
    requires
        call_ensures(login_target, (config, req), url),
        call_ensures(begin_redirect::<S>, (config, req, expired), state),
    ensures
        state is Starting,
        state->original_url@ == url@,
        state->Starting_expired == expired,
{
}

} // verus!
