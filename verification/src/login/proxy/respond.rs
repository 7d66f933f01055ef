//! Response heads of the login flow, logout, and persisting the session.

use vstd::prelude::*;

use crate::headers::{
    bad_insert_text, bad_status_text, head_of, header_safe, lemma_header_safe_concat, put_header,
    response_fields, response_names, response_status, start_response, Head, HeaderField,
    ResponseError,
};
use crate::login::config::LoginConfig;
use crate::login::ctx::HasLoginSession;
use crate::login::token_session::TokenSession;
use crate::login::url::{
    build_end_session_url, default_logout_target, default_post_logout_redirect, end_session_url,
    form_part, law_end_session_url_text, logout_params,
};
use crate::text::{cat3, opt_str, opt_text};
use crate::uri::Uri;

verus! {

/// An error that is shown to the user.
#[derive(Debug)]
pub struct Failure {
    /// The status of the response.
    pub status: u16,
    /// The message on the error page.
    pub message: String,
}

impl Failure {
    /// The failure has the given status and message.
    pub open spec fn says(self, status: u16, message: Seq<char>) -> bool {
        self.status == status && self.message@ == message
    }

    /// A failure with the given status and message.
    pub fn new(status: u16, message: &str) -> (r: Self)
        ensures
            r.says(status, message@),
    {
        Failure { status, message: message.to_owned() }
    }
}

// ── Error responses ──────────────────────────────────────────────────────────

/// The head of an error page.
pub open spec fn error_page_head(status: u16, content_type: Seq<char>) -> Head {
    Head::new(status).with(HeaderField::ContentType, content_type).with(
        HeaderField::CacheControl,
        "no-store"@,
    )
}

/// The head of an error page: the content type of the page, not to be cached.
pub fn error_response_head(status: u16, content_type: &str) -> (r: Result<
    pingora_http::ResponseHeader,
    ResponseError,
>)
    ensures
        r is Ok == (100 <= status <= 999 && header_safe(content_type@)),
        r matches Ok(h) ==> head_of(h) == error_page_head(status, content_type@) && response_names(
            h,
        ) <= 2,
        r matches Err(e) ==> if 100 <= status <= 999 {
            e.says("failed to set content-type"@, Some(bad_insert_text()))
        } else {
            e.says("failed to build error response"@, Some(bad_status_text()))
        },
{
    let mut resp = match start_response(status, "failed to build error response") {
        Ok(h) => h,
        Err(e) => return Err(e),
    };
    if let Err(e) = put_header(
        &mut resp,
        HeaderField::ContentType,
        content_type,
        "failed to set content-type",
    ) {
        return Err(e);
    }
    proof {
        reveal_strlit("no-store");
    }
    if let Err(e) = put_header(
        &mut resp,
        HeaderField::CacheControl,
        "no-store",
        "failed to set cache-control",
    ) {
        return Err(e);
    }
    Ok(resp)
}

// ── Answers that delete a session ────────────────────────────────────────────

/// What is to be done with an answer.
pub enum AnswerAction<S> {
    /// Delete the session on this response.
    Delete {
        /// The session to delete.
        session: S,
        /// The response that the deletion is written to.
        response: pingora_http::ResponseHeader,
    },
    /// Send the response.
    Send(pingora_http::ResponseHeader),
    /// Give up.
    Abort(ResponseError),
}

/// How a deletion went.
pub enum DeleteEvent {
    /// The session was deleted, on this response.
    Deleted(pingora_http::ResponseHeader),
    /// The session could not be deleted, with what the store said.
    DeleteFailed(String),
}

/// The answer has the given head: the session is deleted on it, where there is
/// one, and otherwise it is sent.
pub open spec fn answers<S>(action: AnswerAction<S>, session: Option<S>, head: Head) -> bool {
    match session {
        Some(s) => {
            &&& action matches AnswerAction::Delete { session: d, response }
            &&& d == s
            &&& head_of(response) == head
            &&& response_names(response) <= 2
        },
        None => {
            &&& action matches AnswerAction::Send(response)
            &&& head_of(response) == head
            &&& response_names(response) <= 2
        },
    }
}

/// The answer is given up for the given reason.
pub open spec fn gives_up<S>(
    action: AnswerAction<S>,
    reason: Seq<char>,
    cause: Option<Seq<char>>,
) -> bool {
    action matches AnswerAction::Abort(e) && e.says(reason, cause)
}

/// The answer after a deletion: it is sent as it came back, or given up for the
/// given reason.
pub open spec fn after_delete<S>(
    action: AnswerAction<S>,
    event: DeleteEvent,
    reason: Seq<char>,
) -> bool {
    match event {
        DeleteEvent::Deleted(response) => action == AnswerAction::<S>::Send(response),
        DeleteEvent::DeleteFailed(cause) => gives_up(action, reason, Some(cause@)),
    }
}

/// A response on which a session is deleted, where there is one, before it is
/// sent.
fn answer<S>(response: pingora_http::ResponseHeader, session: Option<S>) -> (r: AnswerAction<S>)
    requires
        response_names(response) <= 2,
    ensures
        answers(r, session, head_of(response)),
{
    match session {
        Some(s) => AnswerAction::Delete { session: s, response },
        None => AnswerAction::Send(response),
    }
}

/// A response goes out once the session was deleted on it.
fn conclude<S>(event: DeleteEvent, context: &str) -> (r: AnswerAction<S>)
    ensures
        after_delete(r, event, context@),
{
    match event {
        DeleteEvent::Deleted(response) => AnswerAction::Send(response),
        DeleteEvent::DeleteFailed(cause) => AnswerAction::Abort(
            ResponseError::because(context, cause),
        ),
    }
}

/// Begins to answer with an error page. An expired session is deleted on the
/// same response.
pub fn begin_error_page<S>(status: u16, content_type: &str, expired: Option<S>) -> (r: AnswerAction<
    S,
>)
    ensures
        if !(100 <= status <= 999) {
            gives_up(r, "failed to build error response"@, Some(bad_status_text()))
        } else if !header_safe(content_type@) {
            gives_up(r, "failed to set content-type"@, Some(bad_insert_text()))
        } else {
            answers(r, expired, error_page_head(status, content_type@))
        },
{
    match error_response_head(status, content_type) {
        Ok(h) => answer(h, expired),
        Err(e) => AnswerAction::Abort(e),
    }
}

/// Goes on with an error page once the deletion of the expired session is
/// settled.
pub fn finish_error_page<S>(event: DeleteEvent) -> (r: AnswerAction<S>)
    ensures
        after_delete(r, event, "failed to delete expired session"@),
{
    conclude(event, "failed to delete expired session")
}

// ── Login-state cookie lines ─────────────────────────────────────────────────

/// A `Set-Cookie` line for a login-state cookie.
pub open spec fn login_cookie_line(
    name: Seq<char>,
    value: Seq<char>,
    path: Seq<char>,
    max_age: Seq<char>,
    secure: bool,
) -> Seq<char> {
    name + "="@ + value + "; HttpOnly; SameSite=Lax; Path="@ + path + "; Max-Age="@ + max_age
        + if secure {
        "; Secure"@
    } else {
        ""@
    }
}

/// A `Set-Cookie` line for a login-state cookie.
pub fn login_cookie(name: &str, value: &str, path: &str, max_age: &str, secure: bool) -> (r: String)
    ensures
        r@ == login_cookie_line(name@, value@, path@, max_age@, secure),
{
    let mut out = cat3(name, "=", value);
    out.append("; HttpOnly; SameSite=Lax; Path=");
    out.append(path);
    out.append("; Max-Age=");
    out.append(max_age);
    if secure {
        out.append("; Secure");
    } else {
        out.append("");
    }
    out
}

/// A login-state cookie line is fit for a header where its parts are.
pub proof fn lemma_login_cookie_safe(
    name: Seq<char>,
    value: Seq<char>,
    path: Seq<char>,
    max_age: Seq<char>,
    secure: bool,
)
    ensures
        header_safe(login_cookie_line(name, value, path, max_age, secure)) == (header_safe(name)
            && header_safe(value) && header_safe(path) && header_safe(max_age)),
{
    broadcast use lemma_header_safe_concat;

    reveal_strlit("=");
    reveal_strlit("; HttpOnly; SameSite=Lax; Path=");
    reveal_strlit("; Max-Age=");
    reveal_strlit("; Secure");
    reveal_strlit("");
}

// ── Logout ───────────────────────────────────────────────────────────────────

/// Where the browser is sent after a logout.
///
/// The end-session endpoint, if there is one, with the ID token as a hint and
/// the configured post-logout target as parameters, where there are such;
/// otherwise the post-logout target itself, which is the configured one, or the
/// base URL.
pub open spec fn logout_url(config: LoginConfig, id_token_hint: Option<Seq<char>>) -> Seq<char> {
    match config.end_session_endpoint {
        Some(endpoint) => end_session_url(
            endpoint@.text(),
            logout_params(id_token_hint, opt_text(config.post_logout_redirect_uri)),
        ),
        None => match config.post_logout_redirect_uri {
            Some(uri) => uri@,
            None => default_logout_target(config.base_url@),
        },
    }
}

/// Where the browser is sent after a logout.
pub fn logout_target(config: &LoginConfig, id_token_hint: Option<&str>) -> (r: Result<
    String,
    ResponseError,
>)
    ensures
        r is Ok,
        r matches Ok(u) ==> u@ == logout_url(*config, opt_str(id_token_hint)),
{
    match &config.end_session_endpoint {
        Some(endpoint) => {
            let target = match &config.post_logout_redirect_uri {
                Some(uri) => Some(uri.as_str()),
                None => None,
            };
            match build_end_session_url(endpoint, id_token_hint, target) {
                Ok(u) => Ok(u),
                Err(_) => Err(ResponseError::new("failed to build end_session URL")),
            }
        },
        None => match &config.post_logout_redirect_uri {
            Some(uri) => Ok(uri.clone()),
            None => Ok(default_post_logout_redirect(config)),
        },
    }
}

/// The head of the response to a logout request.
pub open spec fn logout_head(target: Seq<char>) -> Head {
    Head::new(302).with(HeaderField::Location, target).with(HeaderField::CacheControl, "no-store"@)
}

/// The ID token of a session, if there is one.
pub open spec fn id_token_text<S: TokenSession>(session: Option<&S>) -> Option<Seq<char>> {
    match session {
        Some(s) => match s.state().id_token {
            Some(t) => Some(t.token@),
            None => None,
        },
        None => None,
    }
}

/// The response to a logout request, given the session that was loaded, if any.
///
/// The session is deleted on the same response. A session that could not be
/// loaded counts as none.
pub fn logout_response<S: TokenSession>(config: &LoginConfig, session: Option<&S>) -> (r: Result<
    pingora_http::ResponseHeader,
    ResponseError,
>)
    ensures
        r is Ok == header_safe(logout_url(*config, id_token_text(session))),
        r matches Ok(h) ==> head_of(h) == logout_head(
            logout_url(*config, id_token_text(session)),
        ) && response_names(h) <= 2,
        r matches Err(e) ==> e.says(
            "failed to set Location header on logout"@,
            Some(bad_insert_text()),
        ),
{
    let hint = match session {
        Some(s) => match s.id_token() {
            Some(t) => Some(t.token.as_str()),
            None => None,
        },
        None => None,
    };
    let target = match logout_target(config, hint) {
        Ok(t) => t,
        Err(e) => return Err(e),
    };
    let mut resp = match start_response(302, "failed to build logout response") {
        Ok(h) => h,
        Err(e) => return Err(e),
    };
    if let Err(e) = put_header(
        &mut resp,
        HeaderField::Location,
        target.as_str(),
        "failed to set Location header on logout",
    ) {
        return Err(e);
    }
    proof {
        reveal_strlit("no-store");
    }
    if let Err(e) = put_header(
        &mut resp,
        HeaderField::CacheControl,
        "no-store",
        "failed to set Cache-Control header on logout",
    ) {
        return Err(e);
    }
    Ok(resp)
}

/// How loading the session for a logout went.
pub enum LogoutEvent<S> {
    /// The store answered, with a session or without one.
    Loaded(Option<S>),
    /// The store failed.
    LoadFailed,
}

/// The session that a logout ends. One that could not be loaded counts as none.
pub open spec fn ended_session<S>(event: LogoutEvent<S>) -> Option<S> {
    match event {
        LogoutEvent::Loaded(session) => session,
        LogoutEvent::LoadFailed => None,
    }
}

/// The ID token of a session, if there is one.
pub open spec fn hint_of<S: TokenSession>(session: Option<S>) -> Option<Seq<char>> {
    match session {
        Some(s) => id_token_text(Some(&s)),
        None => None,
    }
}

/// Begins to answer a logout request. The session is deleted on the response
/// that sends the browser away.
pub fn begin_logout<S: TokenSession>(config: &LoginConfig, event: LogoutEvent<S>) -> (r: AnswerAction<
    S,
>)
    ensures
        ({
            let session = ended_session(event);
            let target = logout_url(*config, hint_of(session));
            if header_safe(target) {
                answers(r, session, logout_head(target))
            } else {
                gives_up(
                    r,
                    "failed to set Location header on logout"@,
                    Some(bad_insert_text()),
                )
            }
        }),
{
    let session = match event {
        LogoutEvent::Loaded(session) => session,
        LogoutEvent::LoadFailed => None,
    };
    match logout_response(config, session.as_ref()) {
        Ok(h) => answer(h, session),
        Err(e) => AnswerAction::Abort(e),
    }
}

/// Goes on with a logout once the deletion of the session is settled.
pub fn finish_logout<S>(event: DeleteEvent) -> (r: AnswerAction<S>)
    ensures
        after_delete(r, event, "failed to delete session on logout"@),
{
    conclude(event, "failed to delete session on logout")
}

// ── Persisting the session with the response ─────────────────────────────────

/// What is done with the session of a request when its response is sent.
#[derive(Debug, Clone, Copy, PartialEq, Eq, Structural)]
pub enum Persist {
    /// The session is deleted from the store and dropped.
    Delete,
    /// There is no session to delete.
    Drop,
    /// The session is saved.
    Save,
    /// The session was marked as mutated, but there is none.
    Clean,
    /// The lifetime of the session is extended.
    Touch,
    /// Nothing is done.
    Nothing,
}

/// What is done with the session: a requested deletion comes first, then the
/// saving of a mutated session, then the touch of an unmodified one.
pub open spec fn persist(stored: bool, dirty: bool, doomed: bool) -> Persist {
    if doomed {
        if stored {
            Persist::Delete
        } else {
            Persist::Drop
        }
    } else if dirty {
        if stored {
            Persist::Save
        } else {
            Persist::Clean
        }
    } else if stored {
        Persist::Touch
    } else {
        Persist::Nothing
    }
}

/// What is done with the session of a request when its response is sent.
pub fn persist_action<S, X: HasLoginSession<S>>(ctx: &X) -> (r: Persist)
    ensures
        r == persist(ctx.stored() is Some, ctx.dirty(), ctx.doomed()),
{
    let stored = ctx.login_session().is_some();
    if ctx.is_delete_requested() {
        if stored {
            Persist::Delete
        } else {
            Persist::Drop
        }
    } else if ctx.is_session_dirty() {
        if stored {
            Persist::Save
        } else {
            Persist::Clean
        }
    } else if stored {
        Persist::Touch
    } else {
        Persist::Nothing
    }
}

/// What is said of an action that failed.
pub open spec fn persist_failure(action: Persist) -> Seq<char> {
    match action {
        Persist::Delete | Persist::Drop => "failed to delete session"@,
        Persist::Save | Persist::Clean => "failed to save session"@,
        Persist::Touch | Persist::Nothing => "failed to touch session"@,
    }
}

/// The error with which a response ends when the action failed on it, for the
/// reason that the store gave.
pub fn persist_error(action: Persist, cause: String) -> (r: ResponseError)
    ensures
        r.says(persist_failure(action), Some(cause@)),
{
    let context = match action {
        Persist::Delete | Persist::Drop => "failed to delete session",
        Persist::Save | Persist::Clean => "failed to save session",
        Persist::Touch | Persist::Nothing => "failed to touch session",
    };
    ResponseError::because(context, cause)
}

/// Updates the context after the action has succeeded: a deleted session is
/// dropped, a saved one counts as unmodified.
pub fn persisted<S, X: HasLoginSession<S>>(action: Persist, ctx: &mut X)
    ensures
        action is Delete || action is Drop ==> final(ctx).stored() is None && !final(ctx).dirty()
            && final(ctx).doomed() == old(ctx).doomed(),
        action is Save || action is Clean ==> final(ctx).stored() == old(ctx).stored()
            && !final(ctx).dirty() && final(ctx).doomed() == old(ctx).doomed(),
        action is Touch || action is Nothing ==> *final(ctx) == *old(ctx),
{
    match action {
        Persist::Delete | Persist::Drop => ctx.set_login_session(None),
        Persist::Save | Persist::Clean => ctx.clear_session_dirty(),
        Persist::Touch | Persist::Nothing => {},
    }
}

/// Persisting once is enough: after a save nothing is left to be saved, and
/// after a deletion nothing is left to be deleted.
pub proof fn law_persisting_settles(stored: bool, dirty: bool, doomed: bool)
    ensures
        persist(stored, dirty, doomed) is Save ==> persist(stored, false, doomed) is Touch,
        persist(stored, dirty, doomed) is Delete ==> persist(false, false, doomed) is Drop,
        persist(stored, dirty, doomed) is Delete <==> doomed && stored,
        persist(stored, dirty, doomed) is Save <==> !doomed && dirty && stored,
        persist(stored, dirty, doomed) is Touch <==> !doomed && !dirty && stored,
{
}

/// A logout leads to the end-session endpoint where there is one. Its URL is the
/// text of the endpoint, followed by the ID token as `id_token_hint` exactly
/// where there is one, and by the configured target as
/// `post_logout_redirect_uri` exactly where there is one, each of them whether or
/// not the other is there.
pub proof fn law_logout_leads_to_the_endpoint(
    config: &LoginConfig,
    text: String,
    hint: Option<&str>,
    r: Result<String, ResponseError>,
)
    requires
        config.end_session_endpoint is Some,
        call_ensures(Uri::text, (&config.end_session_endpoint->0,), text),
        call_ensures(logout_target, (config, hint), r),
    ensures
        r is Ok,
        hint is None && config.post_logout_redirect_uri is None ==> r->Ok_0@ == text@,
        hint is Some && config.post_logout_redirect_uri is None ==> r->Ok_0@ == text@ + seq![
            if text@.contains('?') { '&' } else { '?' },
        ] + "id_token_hint="@ + form_part(hint->0@),
        hint is None && config.post_logout_redirect_uri is Some ==> r->Ok_0@ == text@ + seq![
            if text@.contains('?') { '&' } else { '?' },
        ] + "post_logout_redirect_uri="@ + form_part(config.post_logout_redirect_uri->0@),
        hint is Some && config.post_logout_redirect_uri is Some ==> r->Ok_0@ == text@ + seq![
            if text@.contains('?') { '&' } else { '?' },
        ] + "id_token_hint="@ + form_part(hint->0@) + "&post_logout_redirect_uri="@ + form_part(
            config.post_logout_redirect_uri->0@,
        ),
{
    law_end_session_url_text(
        text@,
        opt_str(hint),
        opt_text(config.post_logout_redirect_uri),
    );
}

/// Without an end-session endpoint a logout leads to the configured target, and
/// without one to the base URL; the ID token does not matter.
pub proof fn law_logout_without_endpoint(
    config: &LoginConfig,
    base: String,
    hint: Option<&str>,
    r: Result<String, ResponseError>,
)
    requires
        config.end_session_endpoint is None,
        call_ensures(default_post_logout_redirect, (config,), base),
        call_ensures(logout_target, (config, hint), r),
    ensures
        r is Ok,
        config.post_logout_redirect_uri is Some ==> r->Ok_0@ == config.post_logout_redirect_uri->0@,
        config.post_logout_redirect_uri is None ==> r->Ok_0@ == base@,
{
}

/// The answer to a logout: a redirect to the logout target for the ID token of
/// the session, if it has one, which is not to be cached and has no other header.
/// A session that was loaded is deleted on it; without one, or where loading it
/// failed, the answer is sent as it is.
pub proof fn law_logout_answer<S: TokenSession>(
    config: &LoginConfig,
    event: LogoutEvent<S>,
    hint: Option<&str>,
    target: Result<String, ResponseError>,
    r: AnswerAction<S>,
)
    requires
        hint is Some <==> event is Loaded && event->Loaded_0 is Some
            && event->Loaded_0->0.state().id_token is Some,
        hint is Some ==> hint->0@ == event->Loaded_0->0.state().id_token->0.token@,
        call_ensures(logout_target, (config, hint), target),
        call_ensures(begin_logout::<S>, (config, event), r),
    ensures
        target is Ok,
        r is Abort <==> !header_safe(target->Ok_0@),
        r is Abort ==> r->Abort_0.context@ == "failed to set Location header on logout"@,
        r is Abort ==> r->Abort_0.cause is Some && r->Abort_0.cause->0@
            == " InvalidHTTPHeader context: invalid value while insert"@,
        r is Delete || r is Send ==> ({
            let response = if r is Delete {
                r->response
            } else {
                r->Send_0
            };
            &&& response_status(response) == 302
            &&& response_fields(response) == map![
                "location"@ => seq![vstd::utf8::encode_utf8(target->Ok_0@)],
                "cache-control"@ => seq![vstd::utf8::encode_utf8("no-store"@)]
            ]
        }),
        event is LoadFailed ==> !(r is Delete),
        event is Loaded && event->Loaded_0 is None ==> !(r is Delete),
        event is Loaded && event->Loaded_0 is Some ==> !(r is Send),
        r is Delete ==> r->session == event->Loaded_0->0,
{
    let session = ended_session(event);
    assert(hint_of(session) == opt_str(hint));
    let url = logout_url(*config, opt_str(hint));
    assert(logout_head(url).fields =~= map![
        "location"@ => seq![vstd::utf8::encode_utf8(url)],
        "cache-control"@ => seq![vstd::utf8::encode_utf8("no-store"@)]
    ]);
}

/// An error page has the status, the content type of its page, and is not to be
/// cached. An expired session is deleted on it; without one it is sent as it is.
/// It is given up exactly where the status is none or the content type is not fit
/// for a header.
pub proof fn law_error_page_answer<S>(
    status: u16,
    content_type: &str,
    expired: Option<S>,
    r: AnswerAction<S>,
)
    requires
        call_ensures(begin_error_page::<S>, (status, content_type, expired), r),
    ensures
        r is Abort <==> status < 100 || status > 999 || !header_safe(content_type@),
        r is Abort ==> r->Abort_0.context@ == if status < 100 || status > 999 {
            "failed to build error response"@
        } else {
            "failed to set content-type"@
        },
        r is Abort ==> r->Abort_0.cause is Some && r->Abort_0.cause->0@ == if status < 100 || status
            > 999 {
            " InvalidHTTPHeader context: invalid status"@
        } else {
            " InvalidHTTPHeader context: invalid value while insert"@
        },
        r is Delete || r is Send ==> ({
            let response = if r is Delete {
                r->response
            } else {
                r->Send_0
            };
            &&& response_status(response) == status
            &&& response_fields(response) == map![
                "content-type"@ => seq![vstd::utf8::encode_utf8(content_type@)],
                "cache-control"@ => seq![vstd::utf8::encode_utf8("no-store"@)]
            ]
        }),
        expired is None ==> !(r is Delete),
        expired is Some ==> !(r is Send),
        r is Delete ==> r->session == expired->0,
{
    assert(error_page_head(status, content_type@).fields =~= map![
        "content-type"@ => seq![vstd::utf8::encode_utf8(content_type@)],
        "cache-control"@ => seq![vstd::utf8::encode_utf8("no-store"@)]
    ]);
}

/// Once a session was deleted on a response, that response goes out as it came
/// back; where the deletion failed, the answer is given up with what the store
/// said.
pub proof fn law_answer_after_a_deletion<S>(
    event: DeleteEvent,
    page: AnswerAction<S>,
    logout: AnswerAction<S>,
)
    requires
        call_ensures(finish_error_page::<S>, (event,), page),
        call_ensures(finish_logout::<S>, (event,), logout),
    ensures
        event is Deleted ==> page == AnswerAction::<S>::Send(event->Deleted_0) && logout
            == AnswerAction::<S>::Send(event->Deleted_0),
        event is DeleteFailed ==> {
            &&& page is Abort && page->Abort_0.cause is Some && page->Abort_0.cause->0@
                == event->DeleteFailed_0@
            &&& page->Abort_0.context@ == "failed to delete expired session"@
            &&& logout is Abort && logout->Abort_0.cause is Some && logout->Abort_0.cause->0@
                == event->DeleteFailed_0@
            &&& logout->Abort_0.context@ == "failed to delete session on logout"@
        },
{
}

/// What is done with the session of a request follows from three facts alone: it
/// is deleted where that was asked for, saved where it was mutated and not to be
/// deleted, touched where neither; and nothing is written where there is none.
pub proof fn law_persist_action<S, X: HasLoginSession<S>>(ctx: &X, r: Persist)
    requires
        call_ensures(persist_action::<S, X>, (ctx,), r),
    ensures
        r is Delete <==> ctx.doomed() && ctx.stored() is Some,
        r is Drop <==> ctx.doomed() && ctx.stored() is None,
        r is Save <==> !ctx.doomed() && ctx.dirty() && ctx.stored() is Some,
        r is Clean <==> !ctx.doomed() && ctx.dirty() && ctx.stored() is None,
        r is Touch <==> !ctx.doomed() && !ctx.dirty() && ctx.stored() is Some,
        r is Nothing <==> !ctx.doomed() && !ctx.dirty() && ctx.stored() is None,
{
}

/// An action that failed on a response is told by what it did, with what the
/// store said.
pub proof fn law_persist_error(action: Persist, cause: String, r: ResponseError)
    requires
        call_ensures(persist_error, (action, cause), r),
    ensures
        r.cause is Some && r.cause->0@ == cause@,
        action is Delete || action is Drop ==> r.context@ == "failed to delete session"@,
        action is Save || action is Clean ==> r.context@ == "failed to save session"@,
        action is Touch || action is Nothing ==> r.context@ == "failed to touch session"@,
{
}

/// The `Set-Cookie` line of a login-state cookie: the cookie, kept from scripts
/// and other sites, on its path, for the given number of seconds, and `Secure`
/// exactly where asked.
pub proof fn law_login_cookie(
    name: &str,
    value: &str,
    path: &str,
    max_age: &str,
    secure: bool,
    r: String,
)
    requires
        call_ensures(login_cookie, (name, value, path, max_age, secure), r),
    ensures
        !secure ==> r@ == name@ + "="@ + value@ + "; HttpOnly; SameSite=Lax; Path="@ + path@
            + "; Max-Age="@ + max_age@,
        secure ==> r@ == name@ + "="@ + value@ + "; HttpOnly; SameSite=Lax; Path="@ + path@
            + "; Max-Age="@ + max_age@ + "; Secure"@,
{
    reveal_strlit("");
    let line = name@ + "="@ + value@ + "; HttpOnly; SameSite=Lax; Path="@ + path@ + "; Max-Age="@
        + max_age@;
    assert(line + ""@ == line);
}

/// After an action a deleted session is gone, a saved one counts as unmodified,
/// and a touch changes nothing. A request to delete stays.
pub proof fn law_context_after_persisting<S, X: HasLoginSession<S>>(action: Persist, ctx: &mut X)
    requires
        call_ensures(persisted::<S, X>, (action, ctx), ()),
    ensures
        final(ctx).doomed() == old(ctx).doomed(),
        action is Delete || action is Drop ==> final(ctx).stored() is None && !final(ctx).dirty(),
        action is Save || action is Clean ==> final(ctx).stored() == old(ctx).stored()
            && !final(ctx).dirty(),
        action is Touch || action is Nothing ==> *final(ctx) == *old(ctx),
{
}

/// A failure has the status and the message that it is given.
pub proof fn law_failure_says_what_it_is_given(status: u16, message: &str, r: Failure)
    requires
        call_ensures(Failure::new, (status, message), r),
    ensures
        r.status == status,
        r.message@ == message@,
{
}

/// The response to a logout is the redirect to the logout target for the ID token
/// of the session, if there is one, not to be cached and with no other header.
pub proof fn law_logout_response<S: TokenSession>(
    config: &LoginConfig,
    session: Option<&S>,
    hint: Option<&str>,
    target: Result<String, ResponseError>,
    r: Result<pingora_http::ResponseHeader, ResponseError>,
)
    requires
        hint is Some <==> session is Some && session->0.state().id_token is Some,
        hint is Some ==> hint->0@ == session->0.state().id_token->0.token@,
        call_ensures(logout_target, (config, hint), target),
        call_ensures(logout_response::<S>, (config, session), r),
    ensures
        r is Ok <==> header_safe(target->Ok_0@),
        r is Err ==> r->Err_0.context@ == "failed to set Location header on logout"@,
        r is Err ==> r->Err_0.cause is Some && r->Err_0.cause->0@
            == " InvalidHTTPHeader context: invalid value while insert"@,
        r is Ok ==> response_status(r->Ok_0) == 302,
        r is Ok ==> response_fields(r->Ok_0) == map![
            "location"@ => seq![vstd::utf8::encode_utf8(target->Ok_0@)],
            "cache-control"@ => seq![vstd::utf8::encode_utf8("no-store"@)]
        ],
{
    assert(id_token_text(session) == opt_str(hint));
    let url = logout_url(*config, opt_str(hint));
    assert(logout_head(url).fields =~= map![
        "location"@ => seq![vstd::utf8::encode_utf8(url)],
        "cache-control"@ => seq![vstd::utf8::encode_utf8("no-store"@)]
    ]);
}

/// The head of an error page has its status, the content type of the page, and is
/// not to be cached.
pub proof fn law_error_response_head(
    status: u16,
    content_type: &str,
    r: Result<pingora_http::ResponseHeader, ResponseError>,
)
    requires
        call_ensures(error_response_head, (status, content_type), r),
    ensures
        r is Ok <==> 100 <= status <= 999 && header_safe(content_type@),
        r is Ok ==> response_status(r->Ok_0) == status,
        r is Ok ==> response_fields(r->Ok_0) == map![
            "content-type"@ => seq![vstd::utf8::encode_utf8(content_type@)],
            "cache-control"@ => seq![vstd::utf8::encode_utf8("no-store"@)]
        ],
{
    assert(error_page_head(status, content_type@).fields =~= map![
        "content-type"@ => seq![vstd::utf8::encode_utf8(content_type@)],
        "cache-control"@ => seq![vstd::utf8::encode_utf8("no-store"@)]
    ]);
}

} // verus!
