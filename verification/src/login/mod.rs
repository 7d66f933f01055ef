//! OAuth 2.0 Authorization Code Grant login for browser sessions.

pub mod config;
pub mod cookie;
pub mod cookie_session;
pub mod ctx;
pub mod error_page;
pub mod grant;
pub mod proxy;
pub mod session;
pub mod store_session;
pub mod token_session;
pub mod url;

pub use config::{ConfigError, LoginConfig};
pub use cookie::get_cookie;
pub use cookie_session::{CookieSession, CookieSessionStore};
pub use ctx::{HasLoginSession, LoginCtx};
pub use error_page::{DefaultErrorPage, ErrorPage, ErrorPageResponse};
pub use grant::{CompletedLogin, IdClaims, IdToken, RefreshToken, TokenResponse};
pub use session::SessionError;
pub use store_session::{CoreSessionData, StoreBackedSessionStore};
pub use token_session::{TokenSession, TokenState};
