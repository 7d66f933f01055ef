//! The decisions of the login proxy.
//!
//! The proxy awaits session stores, the authorization server and the cipher;
//! what it does next is decided here. Each flow is a step function from a state
//! and an event to the next state and an action:
//!
//! - [`filter`]: what happens to a request (session policies, refresh,
//!   redirect or error);
//! - [`redirect`]: the redirect to the authorization server;
//! - [`callback`]: the answer to the authorization server's callback;
//! - [`respond`]: the response heads, logout, and persisting the session.

pub mod callback;
pub mod filter;
pub mod redirect;
pub mod respond;
