//! Cookies of requests, names of login cookies, and error pages.

use http::header;
use huskarl_pingora::login::cookie::{cookie_attrs, cookies, login_state_cookie_name};
use huskarl_pingora::login::error_page::html_escape;
use huskarl_pingora::login::{get_cookie, DefaultErrorPage, ErrorPage};

// ── Cookies of a request ─────────────────────────────────────────────────────

#[test]
fn get_cookie_present() {
    let mut headers = http::HeaderMap::new();
    headers.insert(header::COOKIE, "foo=bar".parse().unwrap());
    assert_eq!(get_cookie(&headers, "foo").as_deref(), Some("bar"));
}

#[test]
fn get_cookie_missing() {
    let mut headers = http::HeaderMap::new();
    headers.insert(header::COOKIE, "foo=bar".parse().unwrap());
    assert_eq!(get_cookie(&headers, "baz").as_deref(), None);
}

#[test]
fn get_cookie_multiple_pairs() {
    let mut headers = http::HeaderMap::new();
    headers.insert(header::COOKIE, "a=1; b=2; c=3".parse().unwrap());
    assert_eq!(get_cookie(&headers, "a").as_deref(), Some("1"));
    assert_eq!(get_cookie(&headers, "b").as_deref(), Some("2"));
    assert_eq!(get_cookie(&headers, "c").as_deref(), Some("3"));
}

#[test]
fn get_cookie_whitespace_trimmed() {
    let mut headers = http::HeaderMap::new();
    headers.insert(header::COOKIE, " foo = bar ".parse().unwrap());
    assert_eq!(get_cookie(&headers, "foo").as_deref(), Some("bar"));
}

#[test]
fn get_cookie_empty_headers() {
    let headers = http::HeaderMap::new();
    assert_eq!(get_cookie(&headers, "foo").as_deref(), None);
}

#[test]
fn get_cookie_multiple_cookie_headers() {
    let mut headers = http::HeaderMap::new();
    headers.append(header::COOKIE, "a=1".parse().unwrap());
    headers.append(header::COOKIE, "b=2".parse().unwrap());
    assert_eq!(get_cookie(&headers, "a").as_deref(), Some("1"));
    assert_eq!(get_cookie(&headers, "b").as_deref(), Some("2"));
}

#[test]
fn get_cookie_value_with_equals() {
    let mut headers = http::HeaderMap::new();
    headers.insert(header::COOKIE, "token=abc=def".parse().unwrap());
    // split_once on '=' means value is "abc=def"
    assert_eq!(get_cookie(&headers, "token").as_deref(), Some("abc=def"));
}

// ── login_state_cookie_name tests ──────────────────────────────────────

#[test]
fn cookie_name_secure_root_uses_host_prefix() {
    let name = login_state_cookie_name("abc123", true, "/");
    assert!(name.starts_with("__Host-"));
}

#[test]
fn cookie_name_secure_subpath_uses_secure_prefix() {
    let name = login_state_cookie_name("abc123", true, "/app");
    assert!(name.starts_with("__Secure-"));
}

#[test]
fn cookie_name_insecure_no_prefix() {
    let name = login_state_cookie_name("abc123", false, "/");
    assert!(!name.starts_with("__"));
}

#[test]
fn cookie_name_contains_state() {
    let name = login_state_cookie_name("mystate", true, "/");
    assert!(name.contains("mystate"));
}

#[test]
fn first_cookie_of_a_name_counts() {
    let mut headers = http::HeaderMap::new();
    headers.append(header::COOKIE, "a=1; novalue; =empty; a=2".parse().unwrap());
    headers.append(header::COOKIE, "a=3".parse().unwrap());
    assert_eq!(get_cookie(&headers, "a").as_deref(), Some("1"));
    assert_eq!(get_cookie(&headers, "").as_deref(), Some("empty"));
    assert_eq!(get_cookie(&headers, "novalue"), None);
    let all = cookies(&headers);
    let pairs: Vec<(&str, &str)> = all.iter().map(|(k, v)| (k.as_str(), v.as_str())).collect();
    assert_eq!(pairs, [("a", "1"), ("", "empty"), ("a", "2"), ("a", "3")]);
}

#[test]
fn unreadable_cookie_headers_are_skipped() {
    let mut headers = http::HeaderMap::new();
    headers.append(
        header::COOKIE,
        http::HeaderValue::from_bytes(b"a=\xff").unwrap(),
    );
    headers.append(header::COOKIE, "b=2".parse().unwrap());
    assert_eq!(get_cookie(&headers, "a"), None);
    assert_eq!(get_cookie(&headers, "b").as_deref(), Some("2"));
}

#[test]
fn cookie_name_exactly() {
    assert_eq!(
        login_state_cookie_name("s", true, "/"),
        "__Host-huskarl_login_s"
    );
    assert_eq!(
        login_state_cookie_name("s", true, "/app"),
        "__Secure-huskarl_login_s"
    );
    assert_eq!(login_state_cookie_name("s", false, "/"), "huskarl_login_s");
}

#[test]
fn cookie_attributes_exactly() {
    assert_eq!(
        cookie_attrs(true, "/app"),
        "HttpOnly; SameSite=Lax; Path=/app; Secure"
    );
    assert_eq!(cookie_attrs(false, "/"), "HttpOnly; SameSite=Lax; Path=/");
}

/// A cookie that was set with a name and a value comes back with them.
#[test]
fn cookies_come_back_as_they_were_set() {
    let mut headers = http::HeaderMap::new();
    headers.insert(header::COOKIE, "x-1=YWJj; y=; z=a=b".parse().unwrap());
    let all = cookies(&headers);
    let line: Vec<String> = all.iter().map(|(k, v)| format!("{k}={v}")).collect();
    assert_eq!(line.join("; "), "x-1=YWJj; y=; z=a=b");
}

// ── Error pages ──────────────────────────────────────────────────────────────

#[test]
fn default_renders_html_with_status_and_message() {
    let page = DefaultErrorPage;
    let resp = page.render(500, "something broke");
    assert_eq!(resp.content_type, "text/html; charset=utf-8");
    let body = String::from_utf8(resp.body).unwrap();
    assert!(body.contains("500"));
    assert!(body.contains("something broke"));
    assert!(body.contains("<!DOCTYPE html>"));
}

#[test]
fn default_escapes_html_in_message() {
    let page = DefaultErrorPage;
    let resp = page.render(400, "<script>alert('xss')</script>");
    let body = String::from_utf8(resp.body).unwrap();
    assert!(!body.contains("<script>"));
    assert!(body.contains("&lt;script&gt;"));
    assert!(body.contains("&#x27;"));
}

#[test]
fn html_escape_handles_all_special_chars() {
    assert_eq!(
        html_escape("a&b<c>d\"e'f"),
        "a&amp;b&lt;c&gt;d&quot;e&#x27;f"
    );
}

#[test]
fn html_escape_passes_through_plain_text() {
    assert_eq!(html_escape("hello world"), "hello world");
}

#[test]
fn page_names_the_status() {
    let body = |status| {
        let page = DefaultErrorPage.render(status, "m");
        String::from_utf8(page.body).unwrap()
    };
    assert!(body(400).contains("<title>400 Bad Request</title>"));
    assert!(body(400).contains("<h1>400</h1><p>m</p></div></body></html>"));
    assert!(body(502).contains("<title>502 Bad Gateway</title>"));
}

/// Escaped text holds no markup, and plain text is not touched.
#[test]
fn escaping_leaves_no_markup() {
    let text = "</p><script src=\"x\">'&'</script> \u{e9}";
    let escaped = html_escape(text);
    for c in ['<', '>', '"', '\''] {
        assert!(!escaped.contains(c));
    }
    assert_eq!(html_escape("a b-c/d=1 \u{e9}"), "a b-c/d=1 \u{e9}");
}
