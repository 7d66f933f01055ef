//! Login flow configuration.
//!
//! [`LoginConfig`] holds the settings of the login flow: callback and logout
//! paths, cookie attributes, session lifetime policies, and URL reconstruction
//! for proxied deployments.

use vstd::prelude::*;

use crate::text::{
    contains_char, debug_repr, debug_text, law_stripped_prefix_and_rest_make_the_text,
    law_trailing_characters_are_removed, opt_text, starts_with_char,
};
use crate::time::Duration;
use crate::uri::{rebase, rebased, remove_prefix, unprefixed, Uri};

verus! {

/// Errors that can occur when building a [`LoginConfig`].
#[derive(Debug)]
pub enum ConfigError {
    /// The `callback_path` is invalid.
    InvalidCallbackPath { path: String, reason: &'static str },
    /// The `cookie_path` is invalid.
    InvalidCookiePath { path: String, reason: &'static str },
    /// The `base_url` is invalid.
    InvalidBaseUrl { url: String, reason: &'static str },
    /// The `strip_prefix` is invalid.
    InvalidStripPrefix { prefix: String, reason: &'static str },
    /// The `logout_path` is invalid.
    InvalidLogoutPath { path: String, reason: &'static str },
}

/// The text of a configuration error.
pub open spec fn fault_text(setting: Seq<char>, value: Seq<char>, reason: Seq<char>) -> Seq<char> {
    "invalid "@ + setting + " "@ + debug_repr(value) + ": "@ + reason
}

/// The text of a configuration error.
fn fault_message(setting: &str, value: &str, reason: &str) -> (r: String)
    ensures
        r@ == fault_text(setting@, value@, reason@),
{
    let quoted = debug_text(value);
    let mut out = "invalid ".to_owned();
    out.append(setting);
    out.append(" ");
    out.append(quoted.as_str());
    out.append(": ");
    out.append(reason);
    out
}

impl ConfigError {
    /// What the error says.
    pub open spec fn text(self) -> Seq<char> {
        match self {
            ConfigError::InvalidCallbackPath { path, reason } => fault_text(
                "callback_path"@,
                path@,
                reason@,
            ),
            ConfigError::InvalidCookiePath { path, reason } => fault_text(
                "cookie_path"@,
                path@,
                reason@,
            ),
            ConfigError::InvalidBaseUrl { url, reason } => fault_text("base_url"@, url@, reason@),
            ConfigError::InvalidStripPrefix { prefix, reason } => fault_text(
                "strip_prefix"@,
                prefix@,
                reason@,
            ),
            ConfigError::InvalidLogoutPath { path, reason } => fault_text(
                "logout_path"@,
                path@,
                reason@,
            ),
        }
    }

    /// What the error says.
    pub fn message(&self) -> (r: String)
        ensures
            r@ == self.text(),
    {
        match self {
            ConfigError::InvalidCallbackPath { path, reason } => fault_message(
                "callback_path",
                path.as_str(),
                reason,
            ),
            ConfigError::InvalidCookiePath { path, reason } => fault_message(
                "cookie_path",
                path.as_str(),
                reason,
            ),
            ConfigError::InvalidBaseUrl { url, reason } => fault_message(
                "base_url",
                url.as_str(),
                reason,
            ),
            ConfigError::InvalidStripPrefix { prefix, reason } => fault_message(
                "strip_prefix",
                prefix.as_str(),
                reason,
            ),
            ConfigError::InvalidLogoutPath { path, reason } => fault_message(
                "logout_path",
                path.as_str(),
                reason,
            ),
        }
    }
}

/// What is wrong with a path, if anything: it must start with `/` and must not
/// contain `?`, `#` or `;`.
pub open spec fn path_fault(path: Seq<char>) -> Option<Seq<char>> {
    if path.len() == 0 || path[0] != '/' {
        Some("must start with '/'"@)
    } else if path.contains('?') || path.contains('#') || path.contains(';') {
        Some("must not contain '?', '#', or ';'"@)
    } else {
        None
    }
}

/// Validates that a path starts with `/` and does not contain `?`, `#`, or `;`.
pub fn validate_path(path: &str) -> (r: Result<(), &'static str>)
    ensures
        match r {
            Ok(()) => path_fault(path@) is None,
            Err(reason) => path_fault(path@) == Some(reason@),
        },
{
    if !starts_with_char(path, '/') {
        return Err("must start with '/'");
    }
    if contains_char(path, '?') || contains_char(path, '#') || contains_char(path, ';') {
        return Err("must not contain '?', '#', or ';'");
    }
    Ok(())
}

/// Configuration of the login flow.
///
/// Authorization server endpoints, client credentials and the redirect URI are
/// configured on the grant. Cookie naming for sessions is the responsibility of
/// the session store.
#[derive(Debug)]
pub struct LoginConfig {
    /// Path at which the callback endpoint is mounted (e.g. `"/callback"`).
    pub callback_path: String,
    /// OAuth 2.0 scopes to request.
    pub scopes: Vec<String>,
    /// Whether to set the `Secure` flag on login-state cookies.
    pub secure: bool,
    /// Absolute session cap; `None` means no limit.
    pub max_lifetime: Option<Duration>,
    /// Kill a session after inactivity; `None` means no idle timeout.
    pub idle_timeout: Option<Duration>,
    /// How early to refresh before the actual token expiry.
    pub token_refresh_margin: Duration,
    /// A path for cookies, kept for the application. Login-state cookies do not
    /// use it: their `Path` attribute is `browser_callback_path`.
    pub cookie_path: String,
    /// Canonical client-facing base URL of this application.
    pub base_url: Uri,
    /// Path prefix added by a front proxy that is not part of the
    /// client-facing URL.
    pub strip_prefix: Option<String>,
    /// Path at which the logout endpoint is mounted, if there is one.
    pub logout_path: Option<String>,
    /// The authorization server's end-session endpoint, to which a logout leads.
    /// The ID token of the session is sent along as a hint, and so is
    /// `post_logout_redirect_uri` where it is configured.
    pub end_session_endpoint: Option<Uri>,
    /// URI to redirect to after the local session is cleared: by way of the
    /// end-session endpoint, if there is one, or else directly. Without either
    /// a logout leads to the base URL.
    pub post_logout_redirect_uri: Option<String>,
    /// The callback path as the browser sees it: the `Path` attribute of
    /// login-state cookies, so that they are scoped to the callback endpoint.
    pub browser_callback_path: String,
}

/// The callback path as the browser sees it: without the prefix of a front
/// proxy, where it has that prefix, and below the path of the base URL.
pub open spec fn browser_path(
    callback_path: Seq<char>,
    strip_prefix: Option<Seq<char>>,
    base_path: Seq<char>,
) -> Seq<char> {
    rebased(
        base_path,
        match unprefixed(callback_path, strip_prefix) {
            Some(s) => s,
            None => callback_path,
        },
    )
}

/// What is wrong with an optional path, if anything.
pub open spec fn opt_path_fault(path: Option<Seq<char>>) -> Option<Seq<char>> {
    match path {
        Some(p) => path_fault(p),
        None => None,
    }
}

/// Whether the settings are accepted.
pub open spec fn faultless(
    callback_path: Seq<char>,
    cookie_path: Seq<char>,
    base_url: Uri,
    strip_prefix: Option<String>,
    logout_path: Option<String>,
) -> bool {
    &&& path_fault(callback_path) is None
    &&& path_fault(cookie_path) is None
    &&& base_url.scheme is Some && base_url.authority is Some
    &&& opt_path_fault(opt_text(strip_prefix)) is None
    &&& opt_path_fault(opt_text(logout_path)) is None
}

/// The error reports the first fault of the settings, in the order callback
/// path, cookie path, base URL, prefix, logout path.
pub open spec fn first_fault(
    e: ConfigError,
    callback_path: Seq<char>,
    cookie_path: Seq<char>,
    base_url: Uri,
    strip_prefix: Option<String>,
    logout_path: Option<String>,
) -> bool {
    let absolute = base_url.scheme is Some && base_url.authority is Some;
    if let Some(fault) = path_fault(callback_path) {
        e matches ConfigError::InvalidCallbackPath { path, reason } && path@ == callback_path
            && reason@ == fault
    } else if let Some(fault) = path_fault(cookie_path) {
        e matches ConfigError::InvalidCookiePath { path, reason } && path@ == cookie_path
            && reason@ == fault
    } else if !absolute {
        e matches ConfigError::InvalidBaseUrl { url, reason } && url@ == base_url@.text()
            && reason@ == "must be an absolute URL with scheme and authority"@
    } else if let Some(fault) = opt_path_fault(opt_text(strip_prefix)) {
        e matches ConfigError::InvalidStripPrefix { prefix, reason } && prefix@ == strip_prefix->0@
            && reason@ == fault
    } else if let Some(fault) = opt_path_fault(opt_text(logout_path)) {
        e matches ConfigError::InvalidLogoutPath { path, reason } && path@ == logout_path->0@
            && reason@ == fault
    } else {
        false
    }
}

impl LoginConfig {
    /// Checks the settings and computes the browser-facing callback path.
    ///
    /// The settings are checked in the order callback path, cookie path, base
    /// URL, prefix, logout path, and the first fault is reported.
    pub fn new(
        callback_path: String,
        scopes: Vec<String>,
        secure: bool,
        max_lifetime: Option<Duration>,
        idle_timeout: Option<Duration>,
        token_refresh_margin: Duration,
        cookie_path: String,
        base_url: Uri,
        strip_prefix: Option<String>,
        logout_path: Option<String>,
        end_session_endpoint: Option<Uri>,
        post_logout_redirect_uri: Option<String>,
    ) -> (r: Result<Self, ConfigError>)
        ensures
            match r {
                Ok(c) => {
                    &&& faultless(callback_path@, cookie_path@, base_url, strip_prefix, logout_path)
                    &&& c.callback_path == callback_path
                    &&& c.scopes == scopes
                    &&& c.secure == secure
                    &&& c.max_lifetime == max_lifetime
                    &&& c.idle_timeout == idle_timeout
                    &&& c.token_refresh_margin == token_refresh_margin
                    &&& c.cookie_path == cookie_path
                    &&& c.base_url == base_url
                    &&& c.strip_prefix == strip_prefix
                    &&& c.logout_path == logout_path
                    &&& c.end_session_endpoint == end_session_endpoint
                    &&& c.post_logout_redirect_uri == post_logout_redirect_uri
                    &&& c.browser_callback_path@ == browser_path(
                        callback_path@,
                        opt_text(strip_prefix),
                        base_url.path@,
                    )
                },
                Err(e) => first_fault(
                    e,
                    callback_path@,
                    cookie_path@,
                    base_url,
                    strip_prefix,
                    logout_path,
                ),
            },
    {
        if let Err(reason) = validate_path(callback_path.as_str()) {
            return Err(ConfigError::InvalidCallbackPath { path: callback_path, reason });
        }
        if let Err(reason) = validate_path(cookie_path.as_str()) {
            return Err(ConfigError::InvalidCookiePath { path: cookie_path, reason });
        }
        if base_url.scheme.is_none() || base_url.authority.is_none() {
            return Err(
                ConfigError::InvalidBaseUrl {
                    url: base_url.text(),
                    reason: "must be an absolute URL with scheme and authority",
                },
            );
        }
        if let Some(prefix) = &strip_prefix {
            if let Err(reason) = validate_path(prefix.as_str()) {
                return Err(ConfigError::InvalidStripPrefix { prefix: prefix.clone(), reason });
            }
        }
        if let Some(path) = &logout_path {
            if let Err(reason) = validate_path(path.as_str()) {
                return Err(ConfigError::InvalidLogoutPath { path: path.clone(), reason });
            }
        }
        let prefix = match &strip_prefix {
            Some(p) => Some(p.as_str()),
            None => None,
        };
        let stripped = match remove_prefix(callback_path.as_str(), prefix) {
            Some(s) => s,
            None => callback_path.clone(),
        };
        let browser_callback_path = rebase(base_url.path.as_str(), stripped.as_str());
        Ok(
            LoginConfig {
                callback_path,
                scopes,
                secure,
                max_lifetime,
                idle_timeout,
                token_refresh_margin,
                cookie_path,
                base_url,
                strip_prefix,
                logout_path,
                end_session_endpoint,
                post_logout_redirect_uri,
                browser_callback_path,
            },
        )
    }
}

/// Collects the settings of a [`LoginConfig`].
#[derive(Debug)]
pub struct LoginConfigBuilder {
    pub callback_path: Option<String>,
    pub scopes: Option<Vec<String>>,
    pub secure: bool,
    pub max_lifetime: Option<Duration>,
    pub idle_timeout: Option<Duration>,
    pub token_refresh_margin: Duration,
    pub cookie_path: String,
    pub base_url: Option<Uri>,
    pub strip_prefix: Option<String>,
    pub logout_path: Option<String>,
    pub end_session_endpoint: Option<Uri>,
    pub post_logout_redirect_uri: Option<String>,
}

impl LoginConfig {
    /// A builder with the default settings: secure cookies, no session limits,
    /// a refresh margin of 30 seconds, and cookies on the root path.
    pub fn builder() -> (r: LoginConfigBuilder)
        ensures
            r.callback_path is None,
            r.scopes is None,
            r.secure,
            r.max_lifetime is None,
            r.idle_timeout is None,
            r.token_refresh_margin == (Duration { secs: 30, nanos: 0 }),
            r.cookie_path@ == "/"@,
            r.base_url is None,
            r.strip_prefix is None,
            r.logout_path is None,
            r.end_session_endpoint is None,
            r.post_logout_redirect_uri is None,
    {
        LoginConfigBuilder {
            callback_path: None,
            scopes: None,
            secure: true,
            max_lifetime: None,
            idle_timeout: None,
            token_refresh_margin: Duration::from_secs(30),
            cookie_path: "/".to_owned(),
            base_url: None,
            strip_prefix: None,
            logout_path: None,
            end_session_endpoint: None,
            post_logout_redirect_uri: None,
        }
    }
}

impl LoginConfigBuilder {
    /// Whether to set the `Secure` flag on login-state cookies. Defaults to `true`.
    pub fn secure(self, secure: bool) -> (r: Self)
        ensures
            r == (LoginConfigBuilder { secure, ..self }),
    {
        let mut this = self;
        this.secure = secure;
        this
    }

    /// Absolute session cap. Defaults to no limit.
    pub fn max_lifetime(self, max_lifetime: Duration) -> (r: Self)
        ensures
            r == (LoginConfigBuilder { max_lifetime: Some(max_lifetime), ..self }),
    {
        let mut this = self;
        this.max_lifetime = Some(max_lifetime);
        this
    }

    /// Absolute session cap, or none.
    pub fn maybe_max_lifetime(self, max_lifetime: Option<Duration>) -> (r: Self)
        ensures
            r == (LoginConfigBuilder { max_lifetime, ..self }),
    {
        let mut this = self;
        this.max_lifetime = max_lifetime;
        this
    }

    /// Kill a session after inactivity. Defaults to no idle timeout.
    pub fn idle_timeout(self, idle_timeout: Duration) -> (r: Self)
        ensures
            r == (LoginConfigBuilder { idle_timeout: Some(idle_timeout), ..self }),
    {
        let mut this = self;
        this.idle_timeout = Some(idle_timeout);
        this
    }

    /// Idle timeout, or none.
    pub fn maybe_idle_timeout(self, idle_timeout: Option<Duration>) -> (r: Self)
        ensures
            r == (LoginConfigBuilder { idle_timeout, ..self }),
    {
        let mut this = self;
        this.idle_timeout = idle_timeout;
        this
    }

    /// How early to refresh before the token expiry. Defaults to 30 seconds.
    pub fn token_refresh_margin(self, token_refresh_margin: Duration) -> (r: Self)
        ensures
            r == (LoginConfigBuilder { token_refresh_margin, ..self }),
    {
        let mut this = self;
        this.token_refresh_margin = token_refresh_margin;
        this
    }

    /// A path for cookies, kept for the application; login-state cookies are
    /// scoped to the callback path instead. Defaults to `"/"`.
    pub fn cookie_path(self, cookie_path: String) -> (r: Self)
        ensures
            r == (LoginConfigBuilder { cookie_path, ..self }),
    {
        let mut this = self;
        this.cookie_path = cookie_path;
        this
    }

    /// Path at which the callback endpoint is mounted.
    pub fn callback_path(self, callback_path: String) -> (r: Self)
        ensures
            r == (LoginConfigBuilder { callback_path: Some(callback_path), ..self }),
    {
        let mut this = self;
        this.callback_path = Some(callback_path);
        this
    }

    /// OAuth 2.0 scopes to request.
    pub fn scopes(self, scopes: Vec<String>) -> (r: Self)
        ensures
            r == (LoginConfigBuilder { scopes: Some(scopes), ..self }),
    {
        let mut this = self;
        this.scopes = Some(scopes);
        this
    }

    /// Canonical client-facing base URL.
    pub fn base_url(self, base_url: Uri) -> (r: Self)
        ensures
            r == (LoginConfigBuilder { base_url: Some(base_url), ..self }),
    {
        let mut this = self;
        this.base_url = Some(base_url);
        this
    }

    /// Path prefix added by a front proxy.
    pub fn strip_prefix(self, strip_prefix: String) -> (r: Self)
        ensures
            r == (LoginConfigBuilder { strip_prefix: Some(strip_prefix), ..self }),
    {
        let mut this = self;
        this.strip_prefix = Some(strip_prefix);
        this
    }

    /// Path prefix added by a front proxy, or none.
    pub fn maybe_strip_prefix(self, strip_prefix: Option<String>) -> (r: Self)
        ensures
            r == (LoginConfigBuilder { strip_prefix, ..self }),
    {
        let mut this = self;
        this.strip_prefix = strip_prefix;
        this
    }

    /// Path at which the logout endpoint is mounted.
    pub fn logout_path(self, logout_path: String) -> (r: Self)
        ensures
            r == (LoginConfigBuilder { logout_path: Some(logout_path), ..self }),
    {
        let mut this = self;
        this.logout_path = Some(logout_path);
        this
    }

    /// Path at which the logout endpoint is mounted, or none.
    pub fn maybe_logout_path(self, logout_path: Option<String>) -> (r: Self)
        ensures
            r == (LoginConfigBuilder { logout_path, ..self }),
    {
        let mut this = self;
        this.logout_path = logout_path;
        this
    }

    /// The authorization server's end-session endpoint.
    pub fn end_session_endpoint(self, end_session_endpoint: Uri) -> (r: Self)
        ensures
            r == (LoginConfigBuilder { end_session_endpoint: Some(end_session_endpoint), ..self }),
    {
        let mut this = self;
        this.end_session_endpoint = Some(end_session_endpoint);
        this
    }

    /// The authorization server's end-session endpoint, or none.
    pub fn maybe_end_session_endpoint(self, end_session_endpoint: Option<Uri>) -> (r: Self)
        ensures
            r == (LoginConfigBuilder { end_session_endpoint, ..self }),
    {
        let mut this = self;
        this.end_session_endpoint = end_session_endpoint;
        this
    }

    /// URI to redirect to after logout.
    pub fn post_logout_redirect_uri(self, post_logout_redirect_uri: String) -> (r: Self)
        ensures
            r == (LoginConfigBuilder { post_logout_redirect_uri: Some(post_logout_redirect_uri), ..self }),
    {
        let mut this = self;
        this.post_logout_redirect_uri = Some(post_logout_redirect_uri);
        this
    }

    /// URI to redirect to after logout, or none.
    pub fn maybe_post_logout_redirect_uri(self, post_logout_redirect_uri: Option<String>) -> (r: Self)
        ensures
            r == (LoginConfigBuilder { post_logout_redirect_uri, ..self }),
    {
        let mut this = self;
        this.post_logout_redirect_uri = post_logout_redirect_uri;
        this
    }

    /// The settings are those of the configuration.
    pub open spec fn makes(self, c: LoginConfig) -> bool {
        &&& Some(c.callback_path) == self.callback_path
        &&& Some(c.scopes) == self.scopes
        &&& c.secure == self.secure
        &&& c.max_lifetime == self.max_lifetime
        &&& c.idle_timeout == self.idle_timeout
        &&& c.token_refresh_margin == self.token_refresh_margin
        &&& c.cookie_path == self.cookie_path
        &&& Some(c.base_url) == self.base_url
        &&& c.strip_prefix == self.strip_prefix
        &&& c.logout_path == self.logout_path
        &&& c.end_session_endpoint == self.end_session_endpoint
        &&& c.post_logout_redirect_uri == self.post_logout_redirect_uri
    }

    /// Checks the settings; see [`LoginConfig::new`]. The callback path, the
    /// scopes and the base URL have to be set.
    pub fn build(self) -> (r: Result<LoginConfig, ConfigError>)
        requires
            self.callback_path is Some,
            self.scopes is Some,
            self.base_url is Some,
        ensures
            match r {
                Ok(c) => {
                    &&& faultless(
                        self.callback_path->0@,
                        self.cookie_path@,
                        self.base_url->0,
                        self.strip_prefix,
                        self.logout_path,
                    )
                    &&& self.makes(c)
                    &&& c.browser_callback_path@ == browser_path(
                        self.callback_path->0@,
                        opt_text(self.strip_prefix),
                        self.base_url->0.path@,
                    )
                },
                Err(e) => first_fault(
                    e,
                    self.callback_path->0@,
                    self.cookie_path@,
                    self.base_url->0,
                    self.strip_prefix,
                    self.logout_path,
                ),
            },
    {
        LoginConfig::new(
            self.callback_path.unwrap(),
            self.scopes.unwrap(),
            self.secure,
            self.max_lifetime,
            self.idle_timeout,
            self.token_refresh_margin,
            self.cookie_path,
            self.base_url.unwrap(),
            self.strip_prefix,
            self.logout_path,
            self.end_session_endpoint,
            self.post_logout_redirect_uri,
        )
    }
}

// ── Laws ─────────────────────────────────────────────────────────────────────

/// A path that is no path of an endpoint: it does not begin with `/`, or holds
/// `?`, `#` or `;` somewhere.
pub open spec fn unfit(path: Seq<char>) -> bool {
    path.len() == 0 || path[0] != '/' || exists|i: int|
        0 <= i < path.len() && (#[trigger] path[i] == '?' || path[i] == '#' || path[i] == ';')
}

/// A path has a fault exactly where it is unfit.
proof fn lemma_unfit(path: Seq<char>)
    ensures
        path_fault(path) is Some <==> unfit(path),
{
    if path.contains('?') {
        let i = choose|i: int| 0 <= i < path.len() && path[i] == '?';
        assert(path[i] == '?');
    }
    if path.contains('#') {
        let i = choose|i: int| 0 <= i < path.len() && path[i] == '#';
        assert(path[i] == '#');
    }
    if path.contains(';') {
        let i = choose|i: int| 0 <= i < path.len() && path[i] == ';';
        assert(path[i] == ';');
    }
    if exists|i: int|
        0 <= i < path.len() && (#[trigger] path[i] == '?' || path[i] == '#' || path[i] == ';') {
        let i = choose|i: int|
            0 <= i < path.len() && (#[trigger] path[i] == '?' || path[i] == '#' || path[i] == ';');
        assert(path.contains(path[i]));
    }
}

/// A path is accepted exactly where it is fit for an endpoint, and it is said
/// whether its beginning or its characters are wrong.
pub proof fn law_paths_are_validated(path: &str, r: Result<(), &'static str>)
    requires
        call_ensures(validate_path, (path,), r),
    ensures
        r is Err <==> unfit(path@),
        r is Err ==> r->Err_0@ == reason_of(path@),
{
    lemma_unfit(path@);
}

/// Why a path is unfit: its beginning comes before its characters.
pub open spec fn reason_of(path: Seq<char>) -> Seq<char> {
    if path.len() == 0 || path[0] != '/' {
        "must start with '/'"@
    } else {
        "must not contain '?', '#', or ';'"@
    }
}

/// Settings are accepted exactly where every path among them is fit and the base
/// URL is absolute; otherwise the first fault is reported, in the order callback
/// path, cookie path, base URL, prefix, logout path, with the setting that it is
/// about.
#[verifier::rlimit(30)]
pub proof fn law_first_fault_is_reported(
    builder: LoginConfigBuilder,
    r: Result<LoginConfig, ConfigError>,
)
    requires
        builder.callback_path is Some,
        builder.scopes is Some,
        builder.base_url is Some,
        call_ensures(LoginConfigBuilder::build, (builder,), r),
    ensures
        ({
            let callback = unfit(builder.callback_path->0@);
            let cookie = unfit(builder.cookie_path@);
            let base = builder.base_url->0.scheme is None || builder.base_url->0.authority is None;
            let prefix = builder.strip_prefix is Some && unfit(builder.strip_prefix->0@);
            let logout = builder.logout_path is Some && unfit(builder.logout_path->0@);
            &&& r is Ok <==> !callback && !cookie && !base && !prefix && !logout
            &&& r is Err ==> (r->Err_0 is InvalidCallbackPath <==> callback)
            &&& r is Err ==> (r->Err_0 is InvalidCookiePath <==> !callback && cookie)
            &&& r is Err ==> (r->Err_0 is InvalidBaseUrl <==> !callback && !cookie && base)
            &&& r is Err ==> (r->Err_0 is InvalidStripPrefix <==> !callback && !cookie && !base
                && prefix)
            &&& r is Err ==> (r->Err_0 is InvalidLogoutPath <==> !callback && !cookie && !base
                && !prefix && logout)
        }),
        r is Err && r->Err_0 is InvalidCallbackPath ==> {
            &&& r->Err_0->InvalidCallbackPath_path@ == builder.callback_path->0@
            &&& r->Err_0->InvalidCallbackPath_reason@ == reason_of(builder.callback_path->0@)
        },
        r is Err && r->Err_0 is InvalidCookiePath ==> {
            &&& r->Err_0->InvalidCookiePath_path@ == builder.cookie_path@
            &&& r->Err_0->InvalidCookiePath_reason@ == reason_of(builder.cookie_path@)
        },
        r is Err && r->Err_0 is InvalidBaseUrl ==> {
            &&& r->Err_0->url@ == builder.base_url->0@.text()
            &&& r->Err_0->InvalidBaseUrl_reason@
                == "must be an absolute URL with scheme and authority"@
        },
        r is Err && r->Err_0 is InvalidStripPrefix ==> {
            &&& r->Err_0->prefix@ == builder.strip_prefix->0@
            &&& r->Err_0->InvalidStripPrefix_reason@ == reason_of(builder.strip_prefix->0@)
        },
        r is Err && r->Err_0 is InvalidLogoutPath ==> {
            &&& r->Err_0->InvalidLogoutPath_path@ == builder.logout_path->0@
            &&& r->Err_0->InvalidLogoutPath_reason@ == reason_of(builder.logout_path->0@)
        },
{
    lemma_unfit(builder.callback_path->0@);
    lemma_unfit(builder.cookie_path@);
    if builder.strip_prefix is Some {
        lemma_unfit(builder.strip_prefix->0@);
    }
    if builder.logout_path is Some {
        lemma_unfit(builder.logout_path->0@);
    }
}

/// A configuration keeps every setting as it was given.
pub proof fn law_configuration_keeps_its_settings(
    builder: LoginConfigBuilder,
    r: Result<LoginConfig, ConfigError>,
)
    requires
        builder.callback_path is Some,
        builder.scopes is Some,
        builder.base_url is Some,
        call_ensures(LoginConfigBuilder::build, (builder,), r),
        r is Ok,
    ensures
        r->Ok_0.callback_path == builder.callback_path->0,
        r->Ok_0.scopes == builder.scopes->0,
        r->Ok_0.secure == builder.secure,
        r->Ok_0.max_lifetime == builder.max_lifetime,
        r->Ok_0.idle_timeout == builder.idle_timeout,
        r->Ok_0.token_refresh_margin == builder.token_refresh_margin,
        r->Ok_0.cookie_path == builder.cookie_path,
        r->Ok_0.base_url == builder.base_url->0,
        r->Ok_0.strip_prefix == builder.strip_prefix,
        r->Ok_0.logout_path == builder.logout_path,
        r->Ok_0.end_session_endpoint == builder.end_session_endpoint,
        r->Ok_0.post_logout_redirect_uri == builder.post_logout_redirect_uri,
{
}

/// The callback path as the browser sees it is the path of the base URL, one
/// slash, and the callback path without the prefix; one that does not begin with
/// the prefix stays whole.
#[verifier::rlimit(30)]
pub proof fn law_browser_callback_path(
    builder: LoginConfigBuilder,
    root: Seq<char>,
    slashes: Seq<char>,
    rest: Seq<char>,
    r: Result<LoginConfig, ConfigError>,
)
    requires
        builder.callback_path is Some,
        builder.scopes is Some,
        builder.base_url is Some,
        call_ensures(LoginConfigBuilder::build, (builder,), r),
        r is Ok,
        builder.base_url->0.path@ == root + slashes,
        root.len() > 0 ==> root.last() != '/',
        forall|i: int| 0 <= i < slashes.len() ==> #[trigger] slashes[i] == '/',
    ensures
        builder.callback_path->0@ == (match builder.strip_prefix {
            Some(p) => p@ + rest,
            None => rest,
        }) ==> r->Ok_0.browser_callback_path@ == root + if rest.len() > 0 && rest[0] == '/' {
            rest
        } else {
            seq!['/'] + rest
        },
        builder.strip_prefix is Some && !(builder.strip_prefix->0@.len()
            <= builder.callback_path->0@.len() && builder.callback_path->0@.take(
            builder.strip_prefix->0@.len() as int,
        ) == builder.strip_prefix->0@) ==> r->Ok_0.browser_callback_path@ == root
            + builder.callback_path->0@,
{
    reveal_strlit("/");
    assert("/"@ == seq!['/']);
    law_trailing_characters_are_removed(root, '/', slashes);
    lemma_unfit(builder.callback_path->0@);
    if builder.strip_prefix is Some {
        law_stripped_prefix_and_rest_make_the_text(
            builder.callback_path->0@,
            builder.strip_prefix->0@,
            rest,
        );
    }
    assert(root + seq!['/'] + rest == root + (seq!['/'] + rest));
}

/// Settings that are not given: secure cookies on the root path, no limits of a
/// session, a refresh margin of thirty seconds, and nothing else.
pub proof fn law_default_settings(r: LoginConfigBuilder)
    requires
        call_ensures(LoginConfig::builder, (), r),
    ensures
        r.secure,
        r.max_lifetime is None && r.idle_timeout is None,
        r.token_refresh_margin.secs == 30 && r.token_refresh_margin.nanos == 0,
        r.cookie_path@ == seq!['/'],
        r.callback_path is None && r.scopes is None && r.base_url is None,
        r.strip_prefix is None && r.logout_path is None && r.end_session_endpoint is None
            && r.post_logout_redirect_uri is None,
{
    reveal_strlit("/");
    assert("/"@ == seq!['/']);
}

/// Each setter sets its setting and leaves every other one as it was.
pub proof fn law_setters_set_one_setting(
    b: LoginConfigBuilder,
    flag: bool,
    span: Duration,
    maybe_span: Option<Duration>,
    text: String,
    maybe_text: Option<String>,
    list: Vec<String>,
    uri: Uri,
    maybe_uri: Option<Uri>,
    r: LoginConfigBuilder,
)
    ensures
        call_ensures(LoginConfigBuilder::secure, (b, flag), r) ==> r == (LoginConfigBuilder {
            secure: flag,
            ..b
        }),
        call_ensures(LoginConfigBuilder::max_lifetime, (b, span), r) ==> r == (LoginConfigBuilder {
            max_lifetime: Some(span),
            ..b
        }),
        call_ensures(LoginConfigBuilder::maybe_max_lifetime, (b, maybe_span), r) ==> r == (
        LoginConfigBuilder { max_lifetime: maybe_span, ..b }),
        call_ensures(LoginConfigBuilder::idle_timeout, (b, span), r) ==> r == (LoginConfigBuilder {
            idle_timeout: Some(span),
            ..b
        }),
        call_ensures(LoginConfigBuilder::maybe_idle_timeout, (b, maybe_span), r) ==> r == (
        LoginConfigBuilder { idle_timeout: maybe_span, ..b }),
        call_ensures(LoginConfigBuilder::token_refresh_margin, (b, span), r) ==> r == (
        LoginConfigBuilder { token_refresh_margin: span, ..b }),
        call_ensures(LoginConfigBuilder::cookie_path, (b, text), r) ==> r == (LoginConfigBuilder {
            cookie_path: text,
            ..b
        }),
        call_ensures(LoginConfigBuilder::callback_path, (b, text), r) ==> r == (
        LoginConfigBuilder { callback_path: Some(text), ..b }),
        call_ensures(LoginConfigBuilder::scopes, (b, list), r) ==> r == (LoginConfigBuilder {
            scopes: Some(list),
            ..b
        }),
        call_ensures(LoginConfigBuilder::base_url, (b, uri), r) ==> r == (LoginConfigBuilder {
            base_url: Some(uri),
            ..b
        }),
        call_ensures(LoginConfigBuilder::strip_prefix, (b, text), r) ==> r == (LoginConfigBuilder {
            strip_prefix: Some(text),
            ..b
        }),
        call_ensures(LoginConfigBuilder::maybe_strip_prefix, (b, maybe_text), r) ==> r == (
        LoginConfigBuilder { strip_prefix: maybe_text, ..b }),
        call_ensures(LoginConfigBuilder::logout_path, (b, text), r) ==> r == (LoginConfigBuilder {
            logout_path: Some(text),
            ..b
        }),
        call_ensures(LoginConfigBuilder::maybe_logout_path, (b, maybe_text), r) ==> r == (
        LoginConfigBuilder { logout_path: maybe_text, ..b }),
        call_ensures(LoginConfigBuilder::end_session_endpoint, (b, uri), r) ==> r == (
        LoginConfigBuilder { end_session_endpoint: Some(uri), ..b }),
        call_ensures(LoginConfigBuilder::maybe_end_session_endpoint, (b, maybe_uri), r) ==> r == (
        LoginConfigBuilder { end_session_endpoint: maybe_uri, ..b }),
        call_ensures(LoginConfigBuilder::post_logout_redirect_uri, (b, text), r) ==> r == (
        LoginConfigBuilder { post_logout_redirect_uri: Some(text), ..b }),
        call_ensures(LoginConfigBuilder::maybe_post_logout_redirect_uri, (b, maybe_text), r) ==> r
            == (LoginConfigBuilder { post_logout_redirect_uri: maybe_text, ..b }),
{
}

/// What a configuration error says: which setting is wrong, what it was, and why.
pub proof fn law_config_error_names_the_setting(e: &ConfigError, r: String)
    requires
        call_ensures(ConfigError::message, (e,), r),
    ensures
        *e is InvalidCallbackPath ==> r@ == "invalid "@ + "callback_path"@ + " "@ + debug_repr(
            e->InvalidCallbackPath_path@,
        ) + ": "@ + e->InvalidCallbackPath_reason@,
        *e is InvalidCookiePath ==> r@ == "invalid "@ + "cookie_path"@ + " "@ + debug_repr(
            e->InvalidCookiePath_path@,
        ) + ": "@ + e->InvalidCookiePath_reason@,
        *e is InvalidBaseUrl ==> r@ == "invalid "@ + "base_url"@ + " "@ + debug_repr(e->url@)
            + ": "@ + e->InvalidBaseUrl_reason@,
        *e is InvalidStripPrefix ==> r@ == "invalid "@ + "strip_prefix"@ + " "@ + debug_repr(
            e->prefix@,
        ) + ": "@ + e->InvalidStripPrefix_reason@,
        *e is InvalidLogoutPath ==> r@ == "invalid "@ + "logout_path"@ + " "@ + debug_repr(
            e->InvalidLogoutPath_path@,
        ) + ": "@ + e->InvalidLogoutPath_reason@,
{
}

} // verus!
