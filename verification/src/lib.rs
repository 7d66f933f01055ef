//! OAuth 2.0 protection for Pingora proxies.
//!
//! - [`resource`]: a resource-server guard that checks bearer tokens against
//!   path-based rules;
//! - [`login`]: an authorization-code login flow with browser sessions.
//!
//! The library decides; awaiting the network, session stores and ciphers is
//! left to the proxy around it.

pub mod headers;
pub mod json;
pub mod login;
pub mod resource;
pub mod text;
pub mod time;
pub mod uri;

pub use resource::{
    AuthCtx, CheckError, ClientCertDer, ConfigError, Guard, GuardBuilder, HasAuthState, HasScopes,
    Outcome, Rule, TokenRequirement,
};
