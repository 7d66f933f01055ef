//! URIs: how a request target reads, and the client-facing URI of a request.

use huskarl_pingora::resource::uri::request_uri;
use huskarl_pingora::uri::{rebase, remove_prefix, PathAndQuery, Uri};

/// The parts of a URI, as `http` reads them.
fn uri(text: &str) -> Uri {
    let parsed: http::Uri = text.parse().unwrap();
    Uri {
        scheme: parsed.scheme_str().map(str::to_owned),
        authority: parsed.authority().map(|a| a.as_str().to_owned()),
        path: parsed.path().to_owned(),
        query: parsed.query().map(str::to_owned),
    }
}

#[test]
fn no_base_returns_original() {
    let req = uri("/api/data?q=1");
    let result = request_uri(None, None, &req).unwrap();
    assert_eq!(result.text(), "/api/data?q=1");
}

#[test]
fn base_prepends_scheme_authority_and_path() {
    let base = uri("https://api.example.com/v1");
    let req = uri("/users");
    let result = request_uri(Some(&base), None, &req).unwrap();
    assert_eq!(result.text(), "https://api.example.com/v1/users");
}

#[test]
fn base_with_trailing_slash() {
    let base = uri("https://api.example.com/v1/");
    let req = uri("/users");
    let result = request_uri(Some(&base), None, &req).unwrap();
    assert_eq!(result.text(), "https://api.example.com/v1/users");
}

#[test]
fn base_root_path() {
    let base = uri("https://api.example.com");
    let req = uri("/users");
    let result = request_uri(Some(&base), None, &req).unwrap();
    assert_eq!(result.text(), "https://api.example.com/users");
}

#[test]
fn preserves_query_string() {
    let base = uri("https://api.example.com");
    let req = uri("/users?page=2&limit=10");
    let result = request_uri(Some(&base), None, &req).unwrap();
    assert_eq!(
        result.text(),
        "https://api.example.com/users?page=2&limit=10"
    );
}

#[test]
fn strip_prefix_removes_prefix() {
    let base = uri("https://api.example.com");
    let req = uri("/proxy/users");
    let result = request_uri(Some(&base), Some("/proxy"), &req).unwrap();
    assert_eq!(result.text(), "https://api.example.com/users");
}

#[test]
fn strip_prefix_mismatch_returns_none() {
    let base = uri("https://api.example.com");
    let req = uri("/other/users");
    assert!(request_uri(Some(&base), Some("/proxy"), &req).is_none());
}

#[test]
fn strip_prefix_with_base_path() {
    let base = uri("https://api.example.com/v1");
    let req = uri("/proxy/users");
    let result = request_uri(Some(&base), Some("/proxy"), &req).unwrap();
    assert_eq!(result.text(), "https://api.example.com/v1/users");
}

#[test]
fn strip_prefix_with_query() {
    let base = uri("https://api.example.com");
    let req = uri("/proxy/users?q=test");
    let result = request_uri(Some(&base), Some("/proxy"), &req).unwrap();
    assert_eq!(result.text(), "https://api.example.com/users?q=test");
}

#[test]
fn strip_prefix_exact_match_leaves_empty_path() {
    let base = uri("https://api.example.com");
    let req = uri("/proxy");
    let result = request_uri(Some(&base), Some("/proxy"), &req).unwrap();
    // After stripping "/proxy" from "/proxy" we get "", base path is ""
    // so result path is "/" (from "/"  being added).
    assert!(result.text().starts_with("https://api.example.com/"));
}

#[test]
fn request_uri_keeps_the_query_of_a_stripped_root() {
    let base = uri("https://api.example.com/v1");
    let result = request_uri(Some(&base), Some("/proxy"), &uri("/proxy?a=1&b")).unwrap();
    assert_eq!(result.text(), "https://api.example.com/v1/?a=1&b");
    assert_eq!(result.path, "/v1/");
    assert_eq!(result.query.as_deref(), Some("a=1&b"));
}

#[test]
fn prefix_without_base_is_not_stripped() {
    let result = request_uri(None, Some("/proxy"), &uri("/other")).unwrap();
    assert_eq!(result.text(), "/other");
}

/// A base that is no absolute URI gives no client-facing URI where it has only
/// one of scheme and authority.
#[test]
fn base_with_authority_only_is_refused() {
    let base = uri("api.example.com:443");
    assert!(base.scheme.is_none() && base.authority.is_some());
    assert!(request_uri(Some(&base), None, &uri("/users")).is_none());
    let base = uri("/v1");
    let result = request_uri(Some(&base), None, &uri("/users")).unwrap();
    assert_eq!(result.text(), "/v1/users");
}

/// Targets that are no path and query give no client-facing URI.
#[test]
fn malformed_targets_are_refused() {
    let base = uri("https://api.example.com");
    for (path, query) in [
        ("/a b", None),
        ("/a<b", None),
        ("/a", Some("x y")),
        ("/a", Some("x\"y")),
        ("/\u{7f}", None),
    ] {
        let target = Uri {
            scheme: None,
            authority: None,
            path: path.to_owned(),
            query: query.map(str::to_owned),
        };
        assert!(request_uri(Some(&base), None, &target).is_none(), "{target:?}");
    }
}

/// Every ASCII character, and one beyond, as the library and `http` take it in
/// a path and in a query.
#[test]
fn characters_of_paths_and_queries() {
    let base = uri("https://api.example.com");
    for c in (0u8..128).map(char::from).chain(['\u{e9}', '\u{1f600}']) {
        for (path, query) in [
            (format!("/{c}x"), None),
            ("/".to_owned(), Some(format!("{c}x"))),
        ] {
            let text = match &query {
                Some(q) => format!("{path}?{q}"),
                None => path.clone(),
            };
            let target = Uri {
                scheme: None,
                authority: None,
                path,
                query,
            };
            let expected = text
                .parse::<http::uri::PathAndQuery>()
                .ok()
                .map(|p| (p.path().to_owned(), p.query().map(str::to_owned)));
            let got = request_uri(Some(&base), None, &target).map(|u| (u.path, u.query));
            assert_eq!(got, expected, "{text:?}");
        }
    }
}

#[test]
fn target_length_limit() {
    let base = uri("https://api.example.com");
    let target = |n: usize| Uri {
        scheme: None,
        authority: None,
        path: format!("/{}", "a".repeat(n - 1)),
        query: None,
    };
    assert!(request_uri(Some(&base), None, &target(65534)).is_some());
    assert!(request_uri(Some(&base), None, &target(65535)).is_none());
}

#[test]
fn uri_text_puts_its_parts_together() {
    for text in ["https://u@h:1/p?q", "https://h/", "/p?q", "/", "*", "/?"] {
        assert_eq!(uri(text).text(), text);
        assert_eq!(uri(text).duplicate().text(), text);
    }
}

#[test]
fn uri_from_parts_needs_both_or_neither() {
    let parts = || PathAndQuery {
        path: "/p".into(),
        query: Some("q".into()),
    };
    let whole = Uri::from_parts(Some("https".into()), Some("h".into()), parts()).unwrap();
    assert_eq!(whole.text(), "https://h/p?q");
    assert_eq!(Uri::from_parts(None, None, parts()).unwrap().text(), "/p?q");
    assert!(Uri::from_parts(Some("https".into()), None, parts()).is_none());
    assert!(Uri::from_parts(None, Some("h".into()), parts()).is_none());
}

#[test]
fn rebasing_separates_with_one_slash() {
    assert_eq!(rebase("/base//", "/x"), "/base/x");
    assert_eq!(rebase("/base", "x"), "/base/x");
    assert_eq!(rebase("/", ""), "/");
    assert_eq!(rebase("", "/x"), "/x");
}

#[test]
fn prefixes_are_removed_as_text() {
    assert_eq!(remove_prefix("/in/x", Some("/in")).as_deref(), Some("/x"));
    assert_eq!(remove_prefix("/inx", Some("/in")).as_deref(), Some("x"));
    assert_eq!(remove_prefix("/x", Some("/in")), None);
    assert_eq!(remove_prefix("/x", None).as_deref(), Some("/x"));
}
