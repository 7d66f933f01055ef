//! Token and timing state of sessions.
//!
//! [`TokenState`] holds the token and timing fields that all session types
//! share. Session types embed it and implement [`TokenSession`]. State is never
//! changed in place: [`TokenState::refreshed`] and [`TokenState::with_activity`]
//! produce a new value, which is then set back.

use vstd::prelude::*;

use crate::json::{copy_value, json_object, member, member_u64, uint};
use crate::login::grant::{
    copy_id_token, copy_refresh_token, CompletedLogin, IdToken, RefreshToken, TokenResponse,
};
use crate::login::session::SessionError;
use crate::time::{SystemTime, CLOCK_LIMIT};

verus! {

/// Common token and timing state shared by all session types.
pub struct TokenState {
    /// The token response as JSON.
    pub raw_token_response: serde_json::Value,
    /// When the access token expires, if the authorization server said so.
    pub token_expiry: Option<SystemTime>,
    /// The refresh token, if one was issued.
    pub refresh_token: Option<RefreshToken>,
    /// The ID token, if one was issued.
    pub id_token: Option<IdToken>,
    /// When the session was created.
    pub created_at: SystemTime,
    /// When the session was last active.
    pub last_active: SystemTime,
}

/// When a token that was received `now` expires: `expires_in` seconds later,
/// where the token response holds that number.
pub open spec fn expiry(raw: serde_json::Value, now: SystemTime) -> Option<SystemTime> {
    match uint(member(json_object(raw), "expires_in"@)) {
        Some(secs) => Some(now.later(secs)),
        None => None,
    }
}

/// The state of a session that begins `now`.
pub open spec fn initial_state(
    response: TokenResponse,
    raw: serde_json::Value,
    now: SystemTime,
) -> TokenState {
    TokenState {
        raw_token_response: raw,
        token_expiry: expiry(raw, now),
        refresh_token: response.refresh_token,
        id_token: response.id_token,
        created_at: now,
        last_active: now,
    }
}

/// The state after a refresh `now`: the new token response and its expiry,
/// where it has a JSON representation, the rotated refresh token, where there
/// is one, and the time of activity. Everything else is kept.
pub open spec fn refreshed_state(
    state: TokenState,
    response: TokenResponse,
    now: SystemTime,
) -> TokenState {
    TokenState {
        raw_token_response: match response.raw {
            Ok(raw) => raw,
            Err(_) => state.raw_token_response,
        },
        token_expiry: match response.raw {
            Ok(raw) => expiry(raw, now),
            Err(_) => state.token_expiry,
        },
        refresh_token: match response.refresh_token {
            Some(t) => Some(t),
            None => state.refresh_token,
        },
        id_token: state.id_token,
        created_at: state.created_at,
        last_active: now,
    }
}

/// The state after activity `now`.
pub open spec fn active_state(state: TokenState, now: SystemTime) -> TokenState {
    TokenState { last_active: now, ..state }
}

/// When a token that was received `now` expires.
fn compute_expiry(raw: &serde_json::Value, now: SystemTime) -> (r: Option<SystemTime>)
    requires
        now.readable(),
    ensures
        r == expiry(*raw, now),
{
    match member_u64(raw, "expires_in") {
        Some(secs) => Some(now.plus_secs(secs)),
        None => None,
    }
}

impl TokenState {
    /// A copy of the state.
    pub fn duplicate(&self) -> (r: Self)
        ensures
            r == *self,
    {
        TokenState {
            raw_token_response: copy_value(&self.raw_token_response),
            token_expiry: self.token_expiry,
            refresh_token: copy_refresh_token(&self.refresh_token),
            id_token: copy_id_token(&self.id_token),
            created_at: self.created_at,
            last_active: self.last_active,
        }
    }

    /// The state of a session that begins `now` with a completed login. Fails
    /// where the token response has no JSON representation.
    pub fn from_completed_at(completed: &CompletedLogin, now: SystemTime) -> (r: Result<
        Self,
        SessionError,
    >)
        requires
            now.readable(),
        ensures
            match completed.response().raw {
                Ok(raw) => r == Ok::<TokenState, SessionError>(
                    initial_state(completed.response(), raw, now),
                ),
                Err(text) => r == Err::<TokenState, SessionError>(
                    SessionError::TokenResponse(text),
                ),
            },
    {
        let response = completed.token_response();
        match &response.raw {
            Ok(raw) => Ok(
                TokenState {
                    raw_token_response: copy_value(raw),
                    token_expiry: compute_expiry(raw, now),
                    refresh_token: copy_refresh_token(&response.refresh_token),
                    id_token: copy_id_token(&response.id_token),
                    created_at: now,
                    last_active: now,
                },
            ),
            Err(text) => Err(SessionError::TokenResponse(text.clone())),
        }
    }

    /// The state of a session that begins with a completed login.
    pub fn from_completed(completed: &CompletedLogin) -> (r: Result<Self, SessionError>)
        ensures
            r is Ok == completed.response().raw is Ok,
            r matches Err(e) ==> e == SessionError::TokenResponse(completed.response().raw->Err_0),
            r matches Ok(s) ==> s == initial_state(
                completed.response(),
                completed.response().raw->Ok_0,
                s.created_at,
            ) && s.created_at.readable(),
    {
        let now = SystemTime::now();
        Self::from_completed_at(completed, now)
    }

    /// The state after a refresh `now`.
    pub fn refreshed_at(&self, response: &TokenResponse, now: SystemTime) -> (r: Self)
        requires
            now.readable(),
        ensures
            r == refreshed_state(*self, *response, now),
    {
        let (raw_token_response, token_expiry) = match &response.raw {
            Ok(raw) => (copy_value(raw), compute_expiry(raw, now)),
            Err(_) => (copy_value(&self.raw_token_response), self.token_expiry),
        };
        let refresh_token = match &response.refresh_token {
            Some(t) => Some(t.duplicate()),
            None => copy_refresh_token(&self.refresh_token),
        };
        TokenState {
            raw_token_response,
            token_expiry,
            refresh_token,
            id_token: copy_id_token(&self.id_token),
            created_at: self.created_at,
            last_active: now,
        }
    }

    /// The state with tokens updated from a refresh response.
    ///
    /// Replaces the raw token response and recomputes the token expiry. If the
    /// response includes a rotated refresh token, it replaces the old one;
    /// otherwise the existing refresh token is kept.
    pub fn refreshed(&self, response: &TokenResponse) -> (r: Self)
        ensures
            r == refreshed_state(*self, *response, r.last_active),
            r.last_active.readable(),
    {
        let now = SystemTime::now();
        self.refreshed_at(response, now)
    }

    /// The state after activity `now`.
    pub fn with_activity_at(&self, now: SystemTime) -> (r: Self)
        ensures
            r == active_state(*self, now),
    {
        let mut new = self.duplicate();
        new.last_active = now;
        new
    }

    /// The state with the last-active timestamp set to now.
    pub fn with_activity(&self) -> (r: Self)
        ensures
            r == active_state(*self, r.last_active),
            r.last_active.readable(),
    {
        let now = SystemTime::now();
        self.with_activity_at(now)
    }
}

/// Gives access to the token and timing state of a session, so that lifetime
/// policies can be enforced and tokens refreshed.
///
/// Only [`token_state`](Self::token_state) and
/// [`set_token_state`](Self::set_token_state) have to be implemented.
///
/// The functions that only contracts speak of need not be given where the trait
/// is implemented outside of verified code.
pub trait TokenSession {
    /// The embedded state.
    closed spec fn state(&self) -> TokenState {
        arbitrary()
    }

    /// The two are one session in all but its [`TokenState`].
    open spec fn same_session(&self, other: &Self) -> bool {
        true
    }

    /// Returns a shared reference to the embedded [`TokenState`].
    fn token_state(&self) -> (r: &TokenState)
        ensures
            *r == self.state(),
    ;

    /// Replaces the embedded [`TokenState`] with a new value.
    fn set_token_state(&mut self, state: TokenState)
        ensures
            final(self).state() == state,
            old(self).same_session(final(self)),
    ;

    /// Absolute expiry of the access token, if the authorization server
    /// included `expires_in`.
    fn token_expiry(&self) -> (r: Option<SystemTime>)
        ensures
            r == self.state().token_expiry,
    {
        self.token_state().token_expiry
    }

    /// The refresh token, if the authorization server issued one.
    fn refresh_token(&self) -> (r: Option<&RefreshToken>)
        ensures
            match r {
                Some(t) => self.state().refresh_token == Some(*t),
                None => self.state().refresh_token is None,
            },
    {
        self.token_state().refresh_token.as_ref()
    }

    /// The ID token, if present.
    fn id_token(&self) -> (r: Option<&IdToken>)
        ensures
            match r {
                Some(t) => self.state().id_token == Some(*t),
                None => self.state().id_token is None,
            },
    {
        self.token_state().id_token.as_ref()
    }

    /// When the session was created.
    fn created_at(&self) -> (r: SystemTime)
        ensures
            r == self.state().created_at,
    {
        self.token_state().created_at
    }

    /// When the session was last active.
    fn last_active(&self) -> (r: SystemTime)
        ensures
            r == self.state().last_active,
    {
        self.token_state().last_active
    }

    /// The raw token response from the authorization server.
    fn raw_token_response(&self) -> (r: &serde_json::Value)
        ensures
            *r == self.state().raw_token_response,
    {
        &self.token_state().raw_token_response
    }

    /// Apply tokens from a refresh response that came `now`.
    fn apply_refresh_at(&mut self, response: &TokenResponse, now: SystemTime)
        requires
            now.readable(),
        ensures
            final(self).state() == refreshed_state(old(self).state(), *response, now),
            old(self).same_session(final(self)),
    {
        let new_state = self.token_state().refreshed_at(response, now);
        self.set_token_state(new_state);
    }

    /// Record that the session was active `now`.
    fn record_activity_at(&mut self, now: SystemTime)
        ensures
            final(self).state() == active_state(old(self).state(), now),
            old(self).same_session(final(self)),
    {
        let new_state = self.token_state().with_activity_at(now);
        self.set_token_state(new_state);
    }

    /// Apply tokens from a refresh response.
    fn apply_refresh(&mut self, response: &TokenResponse)
        ensures
            final(self).state() == refreshed_state(
                old(self).state(),
                *response,
                final(self).state().last_active,
            ),
            final(self).state().last_active.readable(),
            old(self).same_session(final(self)),
    {
        let now = SystemTime::now();
        self.apply_refresh_at(response, now);
    }

    /// Record that the session was active.
    fn record_activity(&mut self)
        ensures
            final(self).state() == active_state(
                old(self).state(),
                final(self).state().last_active,
            ),
            final(self).state().last_active.readable(),
            old(self).same_session(final(self)),
    {
        let now = SystemTime::now();
        self.record_activity_at(now);
    }
}

// ── The stored form ──────────────────────────────────────────────────────────

/// The form in which the state of a session is stored: times are whole seconds
/// since the Unix epoch.
pub struct StoredState {
    /// The token response as JSON.
    pub raw_token_response: serde_json::Value,
    /// When the access token expires.
    pub token_expiry: Option<u64>,
    /// The refresh token.
    pub refresh_token: Option<RefreshToken>,
    /// The ID token.
    pub id_token: Option<IdToken>,
    /// When the session was created.
    pub created_at: u64,
    /// When the session was last active.
    pub last_active: u64,
}

/// The stored form of an optional time.
pub open spec fn stored_time(time: Option<SystemTime>) -> Option<u64> {
    match time {
        Some(t) => Some(t.unix()),
        None => None,
    }
}

/// The stored form of a state.
pub open spec fn stored_state(state: TokenState) -> StoredState {
    StoredState {
        raw_token_response: state.raw_token_response,
        token_expiry: stored_time(state.token_expiry),
        refresh_token: state.refresh_token,
        id_token: state.id_token,
        created_at: state.created_at.unix(),
        last_active: state.last_active.unix(),
    }
}

/// The state that a stored form stands for.
pub open spec fn loaded_state(stored: StoredState) -> TokenState {
    TokenState {
        raw_token_response: stored.raw_token_response,
        token_expiry: match stored.token_expiry {
            Some(secs) => Some(SystemTime::at_unix(secs)),
            None => None,
        },
        refresh_token: stored.refresh_token,
        id_token: stored.id_token,
        created_at: SystemTime::at_unix(stored.created_at),
        last_active: SystemTime::at_unix(stored.last_active),
    }
}

impl TokenState {
    /// Every time of the state is one whose seconds can be stored.
    pub open spec fn storable(self) -> bool {
        &&& self.created_at.nanos < CLOCK_LIMIT
        &&& self.last_active.nanos < CLOCK_LIMIT
        &&& self.token_expiry is Some ==> self.token_expiry->0.nanos < CLOCK_LIMIT
    }

    /// Every time of the state is at or after the Unix epoch.
    pub open spec fn since_epoch(self) -> bool {
        &&& self.created_at.nanos >= 0
        &&& self.last_active.nanos >= 0
        &&& self.token_expiry is Some ==> self.token_expiry->0.nanos >= 0
    }

    /// The state with its times cut to whole seconds.
    pub open spec fn in_whole_seconds(self) -> TokenState {
        TokenState {
            token_expiry: match self.token_expiry {
                Some(t) => Some(t.whole_seconds()),
                None => None,
            },
            created_at: self.created_at.whole_seconds(),
            last_active: self.last_active.whole_seconds(),
            ..self
        }
    }

    /// The stored form of the state.
    pub fn to_stored(&self) -> (r: StoredState)
        requires
            self.storable(),
        ensures
            r == stored_state(*self),
    {
        StoredState {
            raw_token_response: copy_value(&self.raw_token_response),
            token_expiry: match self.token_expiry {
                Some(t) => Some(t.to_unix()),
                None => None,
            },
            refresh_token: copy_refresh_token(&self.refresh_token),
            id_token: copy_id_token(&self.id_token),
            created_at: self.created_at.to_unix(),
            last_active: self.last_active.to_unix(),
        }
    }

    /// The state that a stored form stands for.
    pub fn from_stored(stored: StoredState) -> (r: Self)
        ensures
            r == loaded_state(stored),
    {
        TokenState {
            raw_token_response: stored.raw_token_response,
            token_expiry: match stored.token_expiry {
                Some(secs) => Some(SystemTime::from_unix(secs)),
                None => None,
            },
            refresh_token: stored.refresh_token,
            id_token: stored.id_token,
            created_at: SystemTime::from_unix(stored.created_at),
            last_active: SystemTime::from_unix(stored.last_active),
        }
    }
}

/// A state whose times are at or after the Unix epoch is read back from its
/// stored form, its times cut to whole seconds.
pub proof fn law_stored_state_loads(state: TokenState)
    requires
        state.storable(),
        state.since_epoch(),
    ensures
        loaded_state(stored_state(state)) == state.in_whole_seconds(),
{
}

/// A refresh keeps the refresh token unless a new one was issued, and never
/// changes the ID token or the time of creation.
pub proof fn law_refresh_keeps_identity(
    state: TokenState,
    response: TokenResponse,
    now: SystemTime,
)
    ensures
        refreshed_state(state, response, now).id_token == state.id_token,
        refreshed_state(state, response, now).created_at == state.created_at,
        response.refresh_token is None ==> refreshed_state(state, response, now).refresh_token
            == state.refresh_token,
        response.refresh_token is Some ==> refreshed_state(state, response, now).refresh_token
            == response.refresh_token,
{
}

/// Activity changes the time of activity and nothing else.
pub proof fn law_activity_only_touches_last_active(state: TokenState, now: SystemTime)
    ensures
        active_state(state, now).last_active == now,
        active_state(state, now) == (TokenState { last_active: now, ..state }),
{
}

/// A session begins with what the token endpoint sent: its answer, its tokens,
/// and its expiry, counted from now in whole seconds where the answer says so; it
/// was created and active just now. It cannot begin where the answer is no JSON,
/// for the reason that was given.
pub proof fn law_session_begins_with_its_login(
    completed: &CompletedLogin,
    now: SystemTime,
    r: Result<TokenState, SessionError>,
)
    requires
        now.readable(),
        call_ensures(TokenState::from_completed_at, (completed, now), r),
    ensures
        r is Ok <==> completed.response().raw is Ok,
        r is Err ==> r->Err_0 is TokenResponse && r->Err_0->TokenResponse_0
            == completed.response().raw->Err_0,
        r is Ok ==> {
            &&& r->Ok_0.raw_token_response == completed.response().raw->Ok_0
            &&& r->Ok_0.refresh_token == completed.response().refresh_token
            &&& r->Ok_0.id_token == completed.response().id_token
            &&& r->Ok_0.created_at == now
            &&& r->Ok_0.last_active == now
            &&& expires_after(completed.response().raw->Ok_0, now, r->Ok_0.token_expiry)
        },
{
}

/// A token expires as many seconds after its receipt as the answer says under
/// `expires_in`, and never where the answer says no such number.
pub open spec fn expires_after(
    raw: serde_json::Value,
    now: SystemTime,
    expiry: Option<SystemTime>,
) -> bool {
    match json_object(raw) {
        Some(m) => if m.dom().contains("expires_in"@) && m["expires_in"@] is Uint {
            expiry is Some && expiry->0.nanos == now.nanos + m["expires_in"@]->Uint_0
                * 1_000_000_000
        } else {
            expiry is None
        },
        None => expiry is None,
    }
}

/// A refresh replaces the answer and the expiry, where the new answer is JSON,
/// and the refresh token, where a new one was issued. The ID token and the time
/// of creation stay, and the session was active just now.
pub proof fn law_refresh_replaces_what_is_new(
    state: &TokenState,
    response: &TokenResponse,
    now: SystemTime,
    r: TokenState,
)
    requires
        now.readable(),
        call_ensures(TokenState::refreshed_at, (state, response, now), r),
    ensures
        r.last_active == now,
        r.created_at == state.created_at,
        r.id_token == state.id_token,
        response.refresh_token is Some ==> r.refresh_token == response.refresh_token,
        response.refresh_token is None ==> r.refresh_token == state.refresh_token,
        response.raw is Ok ==> r.raw_token_response == response.raw->Ok_0 && expires_after(
            response.raw->Ok_0,
            now,
            r.token_expiry,
        ),
        response.raw is Err ==> r.raw_token_response == state.raw_token_response && r.token_expiry
            == state.token_expiry,
{
}

/// Activity is recorded and changes nothing else.
pub proof fn law_activity_is_recorded(state: &TokenState, now: SystemTime, r: TokenState)
    requires
        call_ensures(TokenState::with_activity_at, (state, now), r),
    ensures
        r.last_active == now,
        r.raw_token_response == state.raw_token_response,
        r.token_expiry == state.token_expiry,
        r.refresh_token == state.refresh_token,
        r.id_token == state.id_token,
        r.created_at == state.created_at,
{
}

/// The times of a state are stored as whole seconds since the epoch, and loaded
/// as the points at those seconds; what is no time is stored and loaded as it is.
pub proof fn law_times_are_stored_in_seconds(
    state: &TokenState,
    stored: StoredState,
    loaded: TokenState,
)
    requires
        state.storable(),
        call_ensures(TokenState::to_stored, (state,), stored),
        call_ensures(TokenState::from_stored, (stored,), loaded),
    ensures
        state.created_at.nanos >= 0 ==> stored.created_at == state.created_at.nanos / 1_000_000_000,
        state.last_active.nanos >= 0 ==> stored.last_active == state.last_active.nanos
            / 1_000_000_000,
        state.created_at.nanos < 0 ==> stored.created_at == 0,
        state.last_active.nanos < 0 ==> stored.last_active == 0,
        stored.token_expiry is Some <==> state.token_expiry is Some,
        state.token_expiry is Some && state.token_expiry->0.nanos >= 0 ==> stored.token_expiry->0
            == state.token_expiry->0.nanos / 1_000_000_000,
        loaded.created_at.nanos == stored.created_at * 1_000_000_000,
        loaded.last_active.nanos == stored.last_active * 1_000_000_000,
        loaded.token_expiry is Some <==> stored.token_expiry is Some,
        stored.token_expiry is Some ==> loaded.token_expiry->0.nanos == stored.token_expiry->0
            * 1_000_000_000,
        loaded.raw_token_response == state.raw_token_response,
        loaded.refresh_token == state.refresh_token,
        loaded.id_token == state.id_token,
{
}

/// A session shows the parts of its state, each as it is.
pub proof fn law_session_shows_its_state<S: TokenSession>(session: &S)
    ensures
        forall|r: &TokenState| #[trigger]
            call_ensures(S::token_state, (session,), r) ==> *r == session.state(),
        forall|r: Option<SystemTime>| #[trigger]
            call_ensures(S::token_expiry, (session,), r) ==> r == session.state().token_expiry,
        forall|r: Option<&RefreshToken>| #[trigger]
            call_ensures(S::refresh_token, (session,), r) ==> (r is Some
                <==> session.state().refresh_token is Some) && (r is Some ==> *r->0
                == session.state().refresh_token->0),
        forall|r: Option<&IdToken>| #[trigger]
            call_ensures(S::id_token, (session,), r) ==> (r is Some
                <==> session.state().id_token is Some) && (r is Some ==> *r->0
                == session.state().id_token->0),
        forall|r: SystemTime| #[trigger]
            call_ensures(S::created_at, (session,), r) ==> r == session.state().created_at,
        forall|r: SystemTime| #[trigger]
            call_ensures(S::last_active, (session,), r) ==> r == session.state().last_active,
        forall|r: &serde_json::Value| #[trigger]
            call_ensures(S::raw_token_response, (session,), r) ==> *r
                == session.state().raw_token_response,
{
}

/// Whatever happens to a session, it stays the same session: a refresh and
/// activity change its state as they should, and nothing else of it.
pub proof fn law_session_stays_itself<S: TokenSession>(
    session: &mut S,
    response: &TokenResponse,
    now: SystemTime,
)
    requires
        now.readable(),
    ensures
        call_ensures(S::apply_refresh_at, (session, response, now), ()) ==> {
            &&& old(session).same_session(final(session))
            &&& final(session).state().last_active == now
            &&& final(session).state().created_at == old(session).state().created_at
            &&& final(session).state().id_token == old(session).state().id_token
            &&& response.refresh_token is Some ==> final(session).state().refresh_token
                == response.refresh_token
            &&& response.refresh_token is None ==> final(session).state().refresh_token == old(
                session,
            ).state().refresh_token
            &&& response.raw is Ok ==> final(session).state().raw_token_response
                == response.raw->Ok_0 && expires_after(
                response.raw->Ok_0,
                now,
                final(session).state().token_expiry,
            )
            &&& response.raw is Err ==> final(session).state().raw_token_response == old(
                session,
            ).state().raw_token_response && final(session).state().token_expiry == old(
                session,
            ).state().token_expiry
        },
        call_ensures(S::record_activity_at, (session, now), ()) ==> {
            &&& old(session).same_session(final(session))
            &&& final(session).state().last_active == now
            &&& final(session).state().created_at == old(session).state().created_at
            &&& final(session).state().token_expiry == old(session).state().token_expiry
            &&& final(session).state().refresh_token == old(session).state().refresh_token
            &&& final(session).state().id_token == old(session).state().id_token
            &&& final(session).state().raw_token_response == old(
                session,
            ).state().raw_token_response
        },
{
}

/// Where the clock is read, one reading serves for all: a session was created and
/// active at one point in time, and its token expires by that point.
pub proof fn law_one_clock_reading(
    completed: &CompletedLogin,
    state: &TokenState,
    response: &TokenResponse,
)
    ensures
        forall|r: Result<TokenState, SessionError>| #[trigger]
            call_ensures(TokenState::from_completed, (completed,), r) ==> {
                &&& r is Ok <==> completed.response().raw is Ok
                &&& r is Ok ==> {
                    &&& r->Ok_0.created_at == r->Ok_0.last_active
                    &&& r->Ok_0.raw_token_response == completed.response().raw->Ok_0
                    &&& r->Ok_0.refresh_token == completed.response().refresh_token
                    &&& r->Ok_0.id_token == completed.response().id_token
                    &&& expires_after(
                        completed.response().raw->Ok_0,
                        r->Ok_0.created_at,
                        r->Ok_0.token_expiry,
                    )
                }
                &&& r is Err ==> r->Err_0 is TokenResponse && r->Err_0->TokenResponse_0
                    == completed.response().raw->Err_0
            },
        forall|r: TokenState| #[trigger]
            call_ensures(TokenState::refreshed, (state, response), r) ==> {
                &&& r.created_at == state.created_at
                &&& r.id_token == state.id_token
                &&& response.refresh_token is Some ==> r.refresh_token == response.refresh_token
                &&& response.refresh_token is None ==> r.refresh_token == state.refresh_token
                &&& response.raw is Ok ==> r.raw_token_response == response.raw->Ok_0
                    && expires_after(response.raw->Ok_0, r.last_active, r.token_expiry)
                &&& response.raw is Err ==> r.raw_token_response == state.raw_token_response
                    && r.token_expiry == state.token_expiry
            },
        forall|r: TokenState| #[trigger]
            call_ensures(TokenState::with_activity, (state,), r) ==> {
                &&& r.raw_token_response == state.raw_token_response
                &&& r.token_expiry == state.token_expiry
                &&& r.refresh_token == state.refresh_token
                &&& r.id_token == state.id_token
                &&& r.created_at == state.created_at
            },
{
}

/// The same holds of a session whose state is set back.
pub proof fn law_session_with_one_clock_reading<S: TokenSession>(
    session: &mut S,
    response: &TokenResponse,
)
    ensures
        call_ensures(S::apply_refresh, (session, response), ()) ==> {
            &&& old(session).same_session(final(session))
            &&& final(session).state().created_at == old(session).state().created_at
            &&& final(session).state().id_token == old(session).state().id_token
            &&& response.refresh_token is Some ==> final(session).state().refresh_token
                == response.refresh_token
            &&& response.refresh_token is None ==> final(session).state().refresh_token == old(
                session,
            ).state().refresh_token
            &&& response.raw is Ok ==> expires_after(
                response.raw->Ok_0,
                final(session).state().last_active,
                final(session).state().token_expiry,
            )
        },
        call_ensures(S::record_activity, (session,), ()) ==> {
            &&& old(session).same_session(final(session))
            &&& final(session).state().created_at == old(session).state().created_at
            &&& final(session).state().token_expiry == old(session).state().token_expiry
            &&& final(session).state().refresh_token == old(session).state().refresh_token
            &&& final(session).state().id_token == old(session).state().id_token
        },
{
}

} // verus!
