//! What can go wrong when a session is created or stored.

use vstd::prelude::*;

use crate::login::cookie_session::CookieSessionStore;
use crate::login::store_session::StoreBackedSessionStore;
use crate::text::{cat3, decimal, decimal_text};

verus! {

/// Marks a type that keeps sessions: the stores of this library, and the drivers
/// that a proxy builds around them.
pub trait Sealed {

}

impl Sealed for CookieSessionStore {

}

impl<E> Sealed for StoreBackedSessionStore<E> {

}

/// An error of a session store.
#[derive(Debug)]
pub enum SessionError {
    /// The session does not fit into the cookies that a browser keeps.
    TooLarge {
        /// The number of cookies that the session would need.
        chunks: usize,
    },
    /// A cookie could not be written to the response, with what the header said.
    Header(String),
    /// The token response could not be represented as JSON, with the reason.
    TokenResponse(String),
}

impl SessionError {
    /// What the error says.
    pub open spec fn text(self) -> Seq<char> {
        match self {
            SessionError::TooLarge { chunks } => "session payload too large: requires "@ + decimal(
                chunks as nat,
            ) + " chunks (max 10)"@,
            SessionError::Header(text) => text@,
            SessionError::TokenResponse(text) => text@,
        }
    }

    /// What the error says.
    pub fn message(&self) -> (r: String)
        ensures
            r@ == self.text(),
    {
        match self {
            SessionError::TooLarge { chunks } => cat3(
                "session payload too large: requires ",
                decimal_text(*chunks).as_str(),
                " chunks (max 10)",
            ),
            SessionError::Header(text) => text.clone(),
            SessionError::TokenResponse(text) => text.clone(),
        }
    }
}

/// What a session error says: how many cookies would have been needed, or what
/// the part that failed said.
pub proof fn law_session_error_says_what_failed(e: &SessionError, digits: String, r: String)
    requires
        call_ensures(SessionError::message, (e,), r),
        *e is TooLarge ==> call_ensures(decimal_text, (e->chunks,), digits),
    ensures
        *e is TooLarge ==> r@ == "session payload too large: requires "@ + digits@
            + " chunks (max 10)"@,
        *e is Header ==> r@ == e->Header_0@,
        *e is TokenResponse ==> r@ == e->TokenResponse_0@,
{
}

} // verus!
