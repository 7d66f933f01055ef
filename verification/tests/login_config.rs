//! The settings of the login flow.

use huskarl_pingora::login::{ConfigError, LoginConfig};
use huskarl_pingora::time::Duration;
use huskarl_pingora::uri::Uri;

/// The parts of a URI, as `http` reads them.
fn uri(text: &str) -> Uri {
    let parsed: http::Uri = text.parse().unwrap();
    Uri {
        scheme: parsed.scheme_str().map(str::to_owned),
        authority: parsed.authority().map(|a| a.as_str().to_owned()),
        path: parsed.path().to_owned(),
        query: parsed.query().map(str::to_owned),
    }
}

fn default_policy_config() -> LoginConfig {
    LoginConfig::builder()
        .callback_path("/callback".into())
        .scopes(vec![])
        .base_url(uri("https://app.example.com"))
        .build()
        .unwrap()
}

#[test]
fn login_config_secure_defaults_true() {
    assert!(default_policy_config().secure);
}

#[test]
fn login_config_secure_override_false() {
    let config = LoginConfig::builder()
        .callback_path("/callback".into())
        .scopes(vec![])
        .base_url(uri("https://app.example.com"))
        .secure(false)
        .build()
        .unwrap();
    assert!(!config.secure);
}

#[test]
fn login_config_max_lifetime_defaults_none() {
    assert!(default_policy_config().max_lifetime.is_none());
}

#[test]
fn login_config_idle_timeout_defaults_none() {
    assert!(default_policy_config().idle_timeout.is_none());
}

#[test]
fn login_config_token_refresh_margin_defaults_30s() {
    assert_eq!(
        default_policy_config().token_refresh_margin,
        Duration::from_secs(30)
    );
}

#[test]
fn login_config_lifetime_fields_override() {
    let config = LoginConfig::builder()
        .callback_path("/callback".into())
        .scopes(vec![])
        .base_url(uri("https://app.example.com"))
        .max_lifetime(Duration::from_secs(3600))
        .idle_timeout(Duration::from_secs(900))
        .token_refresh_margin(Duration::from_secs(60))
        .build()
        .unwrap();
    assert_eq!(config.max_lifetime, Some(Duration::from_secs(3600)));
    assert_eq!(config.idle_timeout, Some(Duration::from_secs(900)));
    assert_eq!(config.token_refresh_margin, Duration::from_secs(60));
}

#[test]
fn login_config_callback_path_must_start_with_slash() {
    let err = LoginConfig::builder()
        .callback_path("callback".into())
        .scopes(vec![])
        .base_url(uri("https://app.example.com"))
        .build()
        .unwrap_err();
    assert!(matches!(err, ConfigError::InvalidCallbackPath { .. }));
}

#[test]
fn login_config_callback_path_must_not_contain_query_or_fragment() {
    for path in ["/callback?foo=bar", "/callback#section", "/callback;Secure"] {
        let err = LoginConfig::builder()
            .callback_path(path.into())
            .scopes(vec![])
            .base_url(uri("https://app.example.com"))
            .build()
            .unwrap_err();
        assert!(matches!(err, ConfigError::InvalidCallbackPath { .. }));
    }
}

#[test]
fn login_config_cookie_path_defaults_to_root() {
    assert_eq!(default_policy_config().cookie_path, "/");
}

#[test]
fn login_config_cookie_path_must_start_with_slash() {
    let err = LoginConfig::builder()
        .callback_path("/callback".into())
        .scopes(vec![])
        .base_url(uri("https://app.example.com"))
        .cookie_path("app".into())
        .build()
        .unwrap_err();
    assert!(matches!(err, ConfigError::InvalidCookiePath { .. }));
}

#[test]
fn login_config_cookie_path_must_not_contain_query_fragment_or_semicolon() {
    for path in ["/app?foo=bar", "/app#section", "/app;Secure"] {
        let err = LoginConfig::builder()
            .callback_path("/callback".into())
            .scopes(vec![])
            .base_url(uri("https://app.example.com"))
            .cookie_path(path.into())
            .build()
            .unwrap_err();
        assert!(matches!(err, ConfigError::InvalidCookiePath { .. }));
    }
}

#[test]
fn login_config_base_url_must_have_scheme_and_authority() {
    let err = LoginConfig::builder()
        .callback_path("/callback".into())
        .scopes(vec![])
        .base_url(uri("/just-a-path"))
        .build()
        .unwrap_err();
    assert!(matches!(err, ConfigError::InvalidBaseUrl { .. }));
}

#[test]
fn login_config_strip_prefix_must_start_with_slash() {
    let err = LoginConfig::builder()
        .callback_path("/callback".into())
        .scopes(vec![])
        .base_url(uri("https://app.example.com"))
        .strip_prefix("internal".into())
        .build()
        .unwrap_err();
    assert!(matches!(err, ConfigError::InvalidStripPrefix { .. }));
}

#[test]
fn login_config_strip_prefix_must_not_contain_query_fragment_or_semicolon() {
    for prefix in ["/internal?foo", "/internal#bar", "/internal;baz"] {
        let err = LoginConfig::builder()
            .callback_path("/callback".into())
            .scopes(vec![])
            .base_url(uri("https://app.example.com"))
            .strip_prefix(prefix.into())
            .build()
            .unwrap_err();
        assert!(matches!(err, ConfigError::InvalidStripPrefix { .. }));
    }
}

#[test]
fn login_config_logout_path_defaults_none() {
    assert!(default_policy_config().logout_path.is_none());
}

#[test]
fn login_config_logout_path_accepted() {
    let config = LoginConfig::builder()
        .callback_path("/callback".into())
        .scopes(vec![])
        .base_url(uri("https://app.example.com"))
        .logout_path("/logout".into())
        .build()
        .unwrap();
    assert_eq!(config.logout_path.as_deref(), Some("/logout"));
}

#[test]
fn login_config_logout_path_must_start_with_slash() {
    let err = LoginConfig::builder()
        .callback_path("/callback".into())
        .scopes(vec![])
        .base_url(uri("https://app.example.com"))
        .logout_path("logout".into())
        .build()
        .unwrap_err();
    assert!(matches!(err, ConfigError::InvalidLogoutPath { .. }));
}

#[test]
fn login_config_logout_path_must_not_contain_query_fragment_or_semicolon() {
    for path in ["/logout?foo=bar", "/logout#section", "/logout;Secure"] {
        let err = LoginConfig::builder()
            .callback_path("/callback".into())
            .scopes(vec![])
            .base_url(uri("https://app.example.com"))
            .logout_path(path.into())
            .build()
            .unwrap_err();
        assert!(matches!(err, ConfigError::InvalidLogoutPath { .. }));
    }
}

// ── browser_callback_path tests ─────────────────────────────────

#[test]
fn browser_callback_path_simple() {
    let config = LoginConfig::builder()
        .callback_path("/callback".into())
        .scopes(vec![])
        .base_url(uri("https://app.example.com"))
        .build()
        .unwrap();
    assert_eq!(config.browser_callback_path, "/callback");
}

#[test]
fn browser_callback_path_with_base_path() {
    let config = LoginConfig::builder()
        .callback_path("/callback".into())
        .scopes(vec![])
        .base_url(uri("https://app.example.com/base"))
        .build()
        .unwrap();
    assert_eq!(config.browser_callback_path, "/base/callback");
}

#[test]
fn browser_callback_path_with_strip_prefix() {
    let config = LoginConfig::builder()
        .callback_path("/internal/callback".into())
        .scopes(vec![])
        .base_url(uri("https://app.example.com"))
        .strip_prefix("/internal".into())
        .build()
        .unwrap();
    assert_eq!(config.browser_callback_path, "/callback");
}

#[test]
fn browser_callback_path_with_base_path_and_strip_prefix() {
    let config = LoginConfig::builder()
        .callback_path("/internal/callback".into())
        .scopes(vec![])
        .base_url(uri("https://app.example.com/base"))
        .strip_prefix("/internal".into())
        .build()
        .unwrap();
    assert_eq!(config.browser_callback_path, "/base/callback");
}

#[test]
fn browser_callback_path_strip_prefix_no_match_uses_callback_as_is() {
    let config = LoginConfig::builder()
        .callback_path("/callback".into())
        .scopes(vec![])
        .base_url(uri("https://app.example.com"))
        .strip_prefix("/other".into())
        .build()
        .unwrap();
    assert_eq!(config.browser_callback_path, "/callback");
}

// ── Faults ───────────────────────────────────────────────────────────────────

fn config_error(
    callback_path: &str,
    cookie_path: &str,
    base_url: &str,
    strip_prefix: Option<&str>,
    logout_path: Option<&str>,
) -> ConfigError {
    LoginConfig::new(
        callback_path.into(),
        vec![],
        true,
        None,
        None,
        Duration::from_secs(30),
        cookie_path.into(),
        uri(base_url),
        strip_prefix.map(String::from),
        logout_path.map(String::from),
        None,
        None,
    )
    .unwrap_err()
}

#[test]
fn faults_are_reported_in_order() {
    let base = "https://app.example.com";
    let e = config_error("c", "a", "/x", Some("p"), Some("l"));
    assert_eq!(
        e.message(),
        "invalid callback_path \"c\": must start with '/'"
    );
    let e = config_error("/c", "/a;b", "/x", Some("p"), Some("l"));
    assert_eq!(
        e.message(),
        "invalid cookie_path \"/a;b\": must not contain '?', '#', or ';'"
    );
    let e = config_error("/c", "/", "/x", Some("p"), Some("l"));
    assert_eq!(
        e.message(),
        "invalid base_url \"/x\": must be an absolute URL with scheme and authority"
    );
    let e = config_error("/c", "/", base, Some("p"), Some("l"));
    assert_eq!(
        e.message(),
        "invalid strip_prefix \"p\": must start with '/'"
    );
    let e = config_error("/c", "/", base, Some("/p"), Some("/l?"));
    assert_eq!(
        e.message(),
        "invalid logout_path \"/l?\": must not contain '?', '#', or ';'"
    );
}

#[test]
fn fault_text_escapes_the_value() {
    let e = config_error("a\"b\n", "/", "https://app.example.com", None, None);
    assert_eq!(
        e.message(),
        "invalid callback_path \"a\\\"b\\n\": must start with '/'"
    );
}

#[test]
fn an_empty_path_is_refused() {
    let e = config_error("", "/", "https://app.example.com", None, None);
    assert!(matches!(e, ConfigError::InvalidCallbackPath { path, .. } if path.is_empty()));
}

#[test]
fn optional_settings_can_be_absent() {
    let settings = |on: bool| {
        LoginConfig::builder()
            .callback_path("/in/callback".into())
            .scopes(vec![])
            .base_url(uri("https://app.example.com"))
            .maybe_max_lifetime(on.then_some(Duration::from_secs(1)))
            .maybe_idle_timeout(on.then_some(Duration::from_secs(2)))
            .maybe_strip_prefix(on.then_some("/in".to_owned()))
            .maybe_logout_path(on.then_some("/logout".to_owned()))
            .maybe_end_session_endpoint(on.then_some(uri("https://auth.example.com/end")))
            .maybe_post_logout_redirect_uri(on.then_some("https://bye.example.com".to_owned()))
            .build()
            .unwrap()
    };
    let on = settings(true);
    assert_eq!(on.max_lifetime, Some(Duration::from_secs(1)));
    assert_eq!(on.idle_timeout, Some(Duration::from_secs(2)));
    assert_eq!(on.strip_prefix.as_deref(), Some("/in"));
    assert_eq!(on.browser_callback_path, "/callback");
    assert_eq!(on.logout_path.as_deref(), Some("/logout"));
    let endpoint = on.end_session_endpoint.unwrap();
    assert_eq!(endpoint.text(), "https://auth.example.com/end");
    assert_eq!(on.post_logout_redirect_uri.as_deref(), Some("https://bye.example.com"));
    let off = settings(false);
    assert!(off.max_lifetime.is_none() && off.idle_timeout.is_none());
    assert!(off.strip_prefix.is_none() && off.logout_path.is_none());
    assert!(off.end_session_endpoint.is_none() && off.post_logout_redirect_uri.is_none());
    assert_eq!(off.browser_callback_path, "/in/callback");
}
