//! OAuth 2.0 resource server (bearer token) protection.
//!
//! Access control is defined through path-based [`rule::Rule`]s registered on a
//! [`guard::Guard`]. Each rule specifies whether a route is public, optionally
//! authenticated, or requires a valid token, and can additionally enforce
//! audience, scope, and custom checks.

pub mod challenge;
pub mod ctx;
pub mod error;
pub mod guard;
pub mod outcome;
pub mod proxy;
pub mod response;
pub mod rule;
pub mod scopes;
pub mod uri;
pub mod validator;

pub use ctx::{AuthCtx, HasAuthState};
pub use error::ConfigError;
pub use guard::{Guard, GuardBuilder};
pub use outcome::Outcome;
pub use rule::{CheckError, Rule, TokenRequirement};
pub use scopes::HasScopes;
pub use validator::ClientCertDer;
