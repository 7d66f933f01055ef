//! The URLs of the login flow.

use huskarl_pingora::login::url::{
    build_end_session_url, default_post_logout_redirect, origin_of, original_url,
};
use huskarl_pingora::login::LoginConfig;
use huskarl_pingora::resource::uri::request_uri;
use huskarl_pingora::uri::Uri;

/// The parts of a URI, as `http` reads them.
fn uri(text: &str) -> Uri {
    let parsed: http::Uri = text.parse().unwrap();
    Uri {
        scheme: parsed.scheme_str().map(str::to_owned),
        authority: parsed.authority().map(|a| a.as_str().to_owned()),
        path: parsed.path().to_owned(),
        query: parsed.query().map(str::to_owned),
    }
}

/// The URL to return to and the URI that proofs are bound to agree.
#[test]
fn both_reconstructions_agree() {
    let config = make_config_with_strip("https://app.example.com/base/", "/in");
    for target in ["/in/x?a=b&c", "/in", "/in/", "/inner/x?", "/in//y", "/other"] {
        let req = uri(target);
        let url = original_url(&config, &req);
        let whole = request_uri(Some(&config.base_url), Some("/in"), &req);
        assert_eq!(url, whole.map(|u| u.text()), "{target}");
        assert_eq!(url.is_none(), target == "/other");
    }
}

fn make_config_with_base(base_url: &str) -> LoginConfig {
    LoginConfig::builder()
        .callback_path("/callback".into())
        .scopes(vec![])
        .base_url(uri(base_url))
        .build()
        .unwrap()
}

fn make_config_with_strip(base_url: &str, strip: &str) -> LoginConfig {
    LoginConfig::builder()
        .callback_path("/callback".into())
        .scopes(vec![])
        .base_url(uri(base_url))
        .strip_prefix(strip.into())
        .build()
        .unwrap()
}

// ── build_end_session_url tests ──────────────────────────────────

#[test]
fn end_session_url_no_params() {
    let endpoint = uri("https://auth.example.com/logout");
    let url = build_end_session_url(&endpoint, None, None).unwrap();
    assert_eq!(url, "https://auth.example.com/logout");
}

#[test]
fn end_session_url_with_id_token_hint() {
    let endpoint = uri("https://auth.example.com/logout");
    let url =
        build_end_session_url(&endpoint, Some("eyJhbGciOiJSUzI1NiJ9.e30.sig"), None).unwrap();
    assert!(url.contains("id_token_hint=eyJhbGciOiJSUzI1NiJ9.e30.sig"));
    assert!(url.starts_with("https://auth.example.com/logout?"));
}

#[test]
fn end_session_url_with_post_logout_redirect() {
    let endpoint = uri("https://auth.example.com/logout");
    let url = build_end_session_url(&endpoint, None, Some("https://app.example.com/")).unwrap();
    assert!(url.contains("post_logout_redirect_uri="));
    assert!(url.contains("app.example.com"));
}

#[test]
fn end_session_url_preserves_existing_query() {
    let endpoint = uri("https://auth.example.com/logout?client_id=abc");
    let url = build_end_session_url(&endpoint, None, Some("https://app.example.com/")).unwrap();
    assert!(url.contains("client_id=abc"));
    assert!(url.contains("post_logout_redirect_uri="));
    // existing query separator is &, not ?
    assert!(url.contains("client_id=abc&post_logout_redirect_uri="));
}

// ── default_post_logout_redirect tests ───────────────────────────

#[test]
fn default_post_logout_redirect_simple() {
    let config = make_config_with_base("https://app.example.com");
    assert_eq!(
        default_post_logout_redirect(&config),
        "https://app.example.com/"
    );
}

#[test]
fn default_post_logout_redirect_with_path() {
    let config = make_config_with_base("https://app.example.com/myapp");
    assert_eq!(
        default_post_logout_redirect(&config),
        "https://app.example.com/myapp"
    );
}

// ── original_url tests ───────────────────────────────────────────

#[test]
fn original_url_simple_path() {
    let config = make_config_with_base("https://app.example.com");
    let target = uri("/page");
    assert_eq!(
        original_url(&config, &target),
        Some("https://app.example.com/page".into())
    );
}

#[test]
fn original_url_root_path() {
    let config = make_config_with_base("https://app.example.com");
    let target = uri("/");
    assert_eq!(
        original_url(&config, &target),
        Some("https://app.example.com/".into())
    );
}

#[test]
fn original_url_preserves_query_string() {
    let config = make_config_with_base("https://app.example.com");
    let target = uri("/search?q=hello&page=1");
    assert_eq!(
        original_url(&config, &target),
        Some("https://app.example.com/search?q=hello&page=1".into())
    );
}

#[test]
fn original_url_base_url_with_path() {
    let config = make_config_with_base("https://app.example.com/base");
    let target = uri("/page");
    assert_eq!(
        original_url(&config, &target),
        Some("https://app.example.com/base/page".into())
    );
}

#[test]
fn original_url_base_url_with_trailing_slash() {
    let config = make_config_with_base("https://app.example.com/base/");
    let target = uri("/page");
    assert_eq!(
        original_url(&config, &target),
        Some("https://app.example.com/base/page".into())
    );
}

#[test]
fn original_url_strip_prefix_removes_prefix() {
    let config = make_config_with_strip("https://app.example.com", "/internal");
    let target = uri("/internal/page");
    assert_eq!(
        original_url(&config, &target),
        Some("https://app.example.com/page".into())
    );
}

#[test]
fn original_url_strip_prefix_preserves_query() {
    let config = make_config_with_strip("https://app.example.com", "/internal");
    let target = uri("/internal/page?foo=bar");
    assert_eq!(
        original_url(&config, &target),
        Some("https://app.example.com/page?foo=bar".into())
    );
}

#[test]
fn original_url_strip_prefix_mismatch_returns_none() {
    let config = make_config_with_strip("https://app.example.com", "/internal");
    let target = uri("/other/page");
    assert_eq!(original_url(&config, &target), None);
}

#[test]
fn original_url_strip_prefix_with_base_path() {
    let config = make_config_with_strip("https://app.example.com/base", "/internal");
    let target = uri("/internal/page");
    assert_eq!(
        original_url(&config, &target),
        Some("https://app.example.com/base/page".into())
    );
}

#[test]
fn end_session_url_encodes_both_parameters() {
    let endpoint = uri("https://auth.example.com/logout");
    let url = build_end_session_url(&endpoint, Some("a b&c"), Some("https://x/?y=z")).unwrap();
    assert_eq!(
        url,
        "https://auth.example.com/logout?id_token_hint=a+b%26c\
         &post_logout_redirect_uri=https%3A%2F%2Fx%2F%3Fy%3Dz"
    );
}

#[test]
fn parameters_are_written_byte_by_byte() {
    let endpoint = uri("https://auth.example.com/logout");
    let hint = |text: &str| {
        let url = build_end_session_url(&endpoint, Some(text), None).unwrap();
        url.split_once("id_token_hint=").unwrap().1.to_owned()
    };
    assert_eq!(hint("Az09*-._"), "Az09*-._");
    assert_eq!(hint(""), "");
    assert_eq!(hint("~ %+/\n"), "%7E+%25%2B%2F%0A");
    assert_eq!(hint("\u{e9}\u{20ac}"), "%C3%A9%E2%82%AC");
}

#[test]
fn origin_is_scheme_and_authority() {
    assert_eq!(origin_of(&uri("https://u@h:8443/p?q")), "https://u@h:8443");
}

#[test]
fn original_url_of_a_stripped_root() {
    let config = make_config_with_strip("https://app.example.com/base/", "/internal");
    assert_eq!(
        original_url(&config, &uri("/internal?x")),
        Some("https://app.example.com/base/?x".into())
    );
}

/// The original URL of a request for the callback has the browser-facing
/// callback path.
#[test]
fn callback_path_is_the_path_of_its_url() {
    let config = LoginConfig::builder()
        .callback_path("/internal/callback".into())
        .scopes(vec![])
        .base_url(uri("https://app.example.com/base"))
        .strip_prefix("/internal".into())
        .build()
        .unwrap();
    let url = original_url(&config, &uri("/internal/callback")).unwrap();
    assert_eq!(url, "https://app.example.com/base/callback");
    assert_eq!(
        url,
        origin_of(&config.base_url) + &config.browser_callback_path
    );
}
