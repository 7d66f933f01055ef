//! URL reconstruction and logout URL building.
//!
//! The client-facing URL to redirect back to after login, and OIDC
//! RP-Initiated Logout URLs with optional `id_token_hint` and
//! `post_logout_redirect_uri` parameters.

use vstd::prelude::*;

use crate::headers::{header_safe, lemma_header_safe_concat};
use crate::login::config::{browser_path, LoginConfig};
use crate::login::cookie::{pairs, Pair};
use crate::resource::uri::client_uri;
use crate::text::{
    cat, cat3, contains_char, law_stripped_prefix_and_rest_make_the_text,
    law_trailing_characters_are_removed, opt_str, opt_text, same,
};
use crate::uri::{
    append_query, lemma_path_and_query, lemma_rebased, rebase, rebased, remove_prefix, unprefixed,
    with_query, Uri, UriView,
};

verus! {

/// The scheme and the authority of a base URL, as the beginning of a URL.
pub open spec fn origin(base: UriView) -> Seq<char> {
    let scheme = match base.scheme {
        Some(s) => s,
        None => "https"@,
    };
    let authority = match base.authority {
        Some(a) => a,
        None => ""@,
    };
    scheme + "://"@ + authority
}

/// The scheme and the authority of a base URL, as the beginning of a URL.
pub fn origin_of(base: &Uri) -> (r: String)
    ensures
        r@ == origin(base@),
{
    let scheme = match &base.scheme {
        Some(s) => s.as_str(),
        None => "https",
    };
    let authority = match &base.authority {
        Some(a) => a.as_str(),
        None => "",
    };
    cat3(scheme, "://", authority)
}

/// The client-facing URL of a request: the origin of the base URL, then the
/// request path (without the configured prefix) below the path of the base URL,
/// then the query. There is none where the prefix does not match.
pub open spec fn client_url(
    base: UriView,
    strip_prefix: Option<Seq<char>>,
    req: UriView,
) -> Option<Seq<char>> {
    match unprefixed(req.path, strip_prefix) {
        Some(stripped) => Some(
            with_query(origin(base) + rebased(base.path, stripped), req.query),
        ),
        None => None,
    }
}

/// Reconstructs the client-facing URL to redirect back to after login.
///
/// Returns `None` where `strip_prefix` is configured but does not match the
/// request path.
pub fn original_url(config: &LoginConfig, req_uri: &Uri) -> (r: Option<String>)
    ensures
        opt_text(r) == client_url(config.base_url@, opt_text(config.strip_prefix), req_uri@),
{
    let prefix = match &config.strip_prefix {
        Some(p) => Some(p.as_str()),
        None => None,
    };
    let stripped = match remove_prefix(req_uri.path.as_str(), prefix) {
        Some(s) => s,
        None => return None,
    };
    let path = rebase(config.base_url.path.as_str(), stripped.as_str());
    let start = origin_of(&config.base_url);
    let url = cat(start.as_str(), path.as_str());
    Some(append_query(url.as_str(), &req_uri.query))
}

/// `serde_html_form::ser::Error`.
#[verifier::external_type_specification]
#[verifier::external_body]
pub struct ExFormError(serde_html_form::ser::Error);

/// `b` is sent as it is in `application/x-www-form-urlencoded` text: a letter, a
/// digit, or one of `*`, `-`, `.` and `_`.
pub open spec fn unreserved(b: u8) -> bool {
    ||| 48 <= b <= 57
    ||| 65 <= b <= 90
    ||| 97 <= b <= 122
    ||| b == 42 || b == 45 || b == 46 || b == 95
}

/// The upper-case hexadecimal digit for a number below sixteen.
pub open spec fn upper_hex(n: u8) -> char {
    if n < 10 {
        (n + 48) as char
    } else {
        (n + 55) as char
    }
}

/// How one byte is written: a space as `+`, and any other byte that is not sent
/// as it is as `%` and two digits.
pub open spec fn form_byte(b: u8) -> Seq<char> {
    if unreserved(b) {
        seq![b as char]
    } else if b == 32 {
        seq!['+']
    } else {
        seq!['%', upper_hex(b / 16), upper_hex(b % 16)]
    }
}

/// How bytes are written, one after another.
pub open spec fn form_bytes(bytes: Seq<u8>) -> Seq<char>
    decreases bytes.len(),
{
    if bytes.len() == 0 {
        Seq::empty()
    } else {
        form_bytes(bytes.drop_last()) + form_byte(bytes.last())
    }
}

/// How a key or a value is written: its UTF-8 bytes.
pub open spec fn form_part(s: Seq<char>) -> Seq<char> {
    form_bytes(vstd::utf8::encode_utf8(s))
}

/// The `application/x-www-form-urlencoded` text of a list of parameters:
/// `key=value`, separated by `&`.
pub open spec fn form_text(params: Seq<Pair>) -> Seq<char>
    decreases params.len(),
{
    if params.len() == 0 {
        Seq::empty()
    } else {
        let last = params.last();
        let before = if params.len() == 1 {
            Seq::empty()
        } else {
            form_text(params.drop_last()) + "&"@
        };
        before + form_part(last.0) + "="@ + form_part(last.1)
    }
}

/// Writes parameters as `application/x-www-form-urlencoded` text.
///
/// Trusted: `serde_html_form::to_string` on a list of pairs of strings, which
/// it can always write: each pair as `key=value`, separated by `&`, with the
/// bytes of both encoded as the format demands.
#[verifier::external_body]
fn form_query(params: &Vec<(String, String)>) -> (r: Result<String, serde_html_form::ser::Error>)
    ensures
        r is Ok,
        r matches Ok(s) ==> s@ == form_text(pairs(params@)),
{
    serde_html_form::to_string(params)
}

/// No character comes before the null character.
proof fn lemma_least_char(c: char)
    ensures
        '\0' <= c,
{
}

/// A text of unreserved characters is written as it is.
pub proof fn law_unreserved_text_is_written_as_it_is(s: Seq<char>)
    requires
        forall|i: int| 0 <= i < s.len() ==> #[trigger] s[i] <= '\u{7f}' && unreserved(s[i] as u8),
    ensures
        form_part(s) == s,
{
    let bytes = vstd::utf8::encode_utf8(s);
    assert forall|i: int| 0 <= i < s.len() implies '\0' <= #[trigger] s[i] <= '\u{7f}' by {
        lemma_least_char(s[i]);
    }
    vstd::utf8::is_ascii_chars_encode_utf8(s);
    assert forall|i: int| 0 <= i < bytes.len() implies unreserved(#[trigger] bytes[i]) by {
        assert(s[i] as u8 == bytes[i]);
    }
    lemma_unreserved_bytes(bytes);
    assert(Seq::new(bytes.len(), |i: int| bytes[i] as char) == s) by {
        assert forall|i: int| 0 <= i < s.len() implies (#[trigger] bytes[i]) as char == s[i] by {
            assert(s[i] as u8 == bytes[i]);
        }
    }
}

/// Unreserved bytes are written as they are.
proof fn lemma_unreserved_bytes(bytes: Seq<u8>)
    requires
        forall|i: int| 0 <= i < bytes.len() ==> unreserved(#[trigger] bytes[i]),
    ensures
        form_bytes(bytes) == Seq::new(bytes.len(), |i: int| bytes[i] as char),
    decreases bytes.len(),
{
    if bytes.len() > 0 {
        let fewer = bytes.drop_last();
        assert forall|i: int| 0 <= i < fewer.len() implies unreserved(#[trigger] fewer[i]) by {
            assert(fewer[i] == bytes[i]);
        }
        lemma_unreserved_bytes(fewer);
        assert(form_bytes(bytes) == Seq::new(bytes.len(), |i: int| bytes[i] as char));
    }
}

/// Every text can be sent in a header once it is written.
proof fn lemma_form_bytes_safe(bytes: Seq<u8>)
    ensures
        header_safe(form_bytes(bytes)),
    decreases bytes.len(),
{
    if bytes.len() > 0 {
        lemma_form_bytes_safe(bytes.drop_last());
        lemma_header_safe_concat(form_bytes(bytes.drop_last()), form_byte(bytes.last()));
    }
}

/// Parameters can be sent in a header, whatever they hold.
pub proof fn law_form_text_fits_a_header(params: Seq<Pair>)
    ensures
        header_safe(form_text(params)),
    decreases params.len(),
{
    broadcast use lemma_header_safe_concat;

    reveal_strlit("&");
    reveal_strlit("=");
    if params.len() > 0 {
        law_form_text_fits_a_header(params.drop_last());
        lemma_form_bytes_safe(vstd::utf8::encode_utf8(params.last().0));
        lemma_form_bytes_safe(vstd::utf8::encode_utf8(params.last().1));
    }
}

/// The parameters of a logout request that are present, in order.
pub open spec fn logout_params(
    id_token_hint: Option<Seq<char>>,
    post_logout_redirect_uri: Option<Seq<char>>,
) -> Seq<Pair> {
    let hint: Seq<Pair> = match id_token_hint {
        Some(h) => seq![("id_token_hint"@, h)],
        None => Seq::empty(),
    };
    let redirect: Seq<Pair> = match post_logout_redirect_uri {
        Some(u) => seq![("post_logout_redirect_uri"@, u)],
        None => Seq::empty(),
    };
    hint + redirect
}

/// The end-session URL: the endpoint, and the parameters behind `?`, or behind
/// `&` where the endpoint already has a query.
pub open spec fn end_session_url(endpoint: Seq<char>, params: Seq<Pair>) -> Seq<char> {
    if params.len() == 0 {
        endpoint
    } else if endpoint.contains('?') {
        endpoint + "&"@ + form_text(params)
    } else {
        endpoint + "?"@ + form_text(params)
    }
}

/// Builds the end-session URL, with the `id_token_hint` and
/// `post_logout_redirect_uri` parameters that are present.
pub fn build_end_session_url(
    endpoint: &Uri,
    id_token_hint: Option<&str>,
    post_logout_redirect_uri: Option<&str>,
) -> (r: Result<String, serde_html_form::ser::Error>)
    ensures
        r is Ok,
        r matches Ok(u) ==> u@ == end_session_url(
            endpoint@.text(),
            logout_params(opt_str(id_token_hint), opt_str(post_logout_redirect_uri)),
        ),
{
    let base = endpoint.text();
    let mut params: Vec<(String, String)> = Vec::new();
    assert(pairs(params@) == Seq::<Pair>::empty());
    if let Some(h) = id_token_hint {
        params.push(("id_token_hint".to_owned(), h.to_owned()));
        assert(pairs(params@) == seq![("id_token_hint"@, h@)]);
    }
    let ghost so_far = pairs(params@);
    if let Some(u) = post_logout_redirect_uri {
        params.push(("post_logout_redirect_uri".to_owned(), u.to_owned()));
        assert(pairs(params@) == so_far + seq![("post_logout_redirect_uri"@, u@)]);
    }
    assert(pairs(params@) == logout_params(
        opt_str(id_token_hint),
        opt_str(post_logout_redirect_uri),
    ));
    if params.len() == 0 {
        return Ok(base);
    }
    let query = match form_query(&params) {
        Ok(q) => q,
        Err(e) => return Err(e),
    };
    if contains_char(base.as_str(), '?') {
        Ok(cat3(base.as_str(), "&", query.as_str()))
    } else {
        Ok(cat3(base.as_str(), "?", query.as_str()))
    }
}

/// The default target after a logout: the base URL, with `/` for an empty path.
pub open spec fn default_logout_target(base: UriView) -> Seq<char> {
    if base.path.len() == 0 || base.path == "/"@ {
        origin(base) + "/"@
    } else {
        origin(base) + base.path
    }
}

/// Returns the default post-logout redirect: the origin and path of the base
/// URL.
pub fn default_post_logout_redirect(config: &LoginConfig) -> (r: String)
    ensures
        r@ == default_logout_target(config.base_url@),
{
    let start = origin_of(&config.base_url);
    let path = config.base_url.path.as_str();
    if path.is_empty() || same(path, "/") {
        cat(start.as_str(), "/")
    } else {
        cat(start.as_str(), path)
    }
}

/// The URL to return to after login and the URI that proofs are bound to agree:
/// below an absolute base URL the first is absent exactly where a configured
/// prefix does not match the request path, and where both are there, the one is
/// the text of the other.
pub proof fn law_reconstructions_agree(
    base: UriView,
    strip_prefix: Option<Seq<char>>,
    req: UriView,
)
    requires
        base.valid(),
        base.absolute(),
        req.valid(),
    ensures
        client_url(base, strip_prefix, req) is None <==> strip_prefix is Some
            && !strip_prefix->0.is_prefix_of(req.path),
        client_url(base, strip_prefix, req) is None ==> client_uri(
            Some(base),
            strip_prefix,
            req,
        ) is None,
        client_url(base, strip_prefix, req) is Some && client_uri(
            Some(base),
            strip_prefix,
            req,
        ) is Some ==> client_url(base, strip_prefix, req)->0 == client_uri(
            Some(base),
            strip_prefix,
            req,
        )->0.text(),
{
    if unprefixed(req.path, strip_prefix) is Some {
        lemma_rebased(base, strip_prefix, req);
        lemma_path_and_query(
            rebased(base.path, unprefixed(req.path, strip_prefix)->0),
            req.query,
        );
    }
}

/// The browser-facing callback path agrees with URL reconstruction: a request
/// to the callback path, without a query, has the client-facing URL that
/// consists of the origin and that path, wherever the prefix matches.
pub proof fn law_callback_path_matches_url(
    base: UriView,
    strip_prefix: Option<Seq<char>>,
    req: UriView,
)
    requires
        unprefixed(req.path, strip_prefix) is Some,
        req.query is None,
    ensures
        client_url(base, strip_prefix, req) == Some(
            origin(base) + browser_path(req.path, strip_prefix, base.path),
        ),
{
}

/// There is no URL to return to exactly where the request path does not begin with
/// the configured prefix.
pub proof fn law_original_url_needs_the_prefix(config: &LoginConfig, req: &Uri, r: Option<String>)
    requires
        call_ensures(original_url, (config, req), r),
    ensures
        r is None <==> config.strip_prefix is Some && !(config.strip_prefix->0@.len()
            <= req.path@.len() && req.path@.take(config.strip_prefix->0@.len() as int)
            == config.strip_prefix->0@),
{
    if config.strip_prefix is Some {
        law_stripped_prefix_and_rest_make_the_text(
            req.path@,
            config.strip_prefix->0@,
            Seq::empty(),
        );
    }
}

/// The URL to return to: the scheme and the authority of the base URL, its path
/// and what follows the configured prefix in the request path with one slash
/// between them, and the query of the request behind `?`.
#[verifier::rlimit(30)]
pub proof fn law_original_url_is_below_the_base(
    config: &LoginConfig,
    root: Seq<char>,
    slashes: Seq<char>,
    req: &Uri,
    rest: Seq<char>,
    r: Option<String>,
)
    requires
        call_ensures(original_url, (config, req), r),
        config.base_url.path@ == root + slashes,
        root.len() > 0 ==> root.last() != '/',
        forall|i: int| 0 <= i < slashes.len() ==> #[trigger] slashes[i] == '/',
        req.path@ == match config.strip_prefix {
            Some(p) => p@ + rest,
            None => rest,
        },
    ensures
        r is Some,
        r->0@ == (match config.base_url.scheme {
            Some(s) => s@,
            None => "https"@,
        }) + "://"@ + (match config.base_url.authority {
            Some(a) => a@,
            None => Seq::empty(),
        }) + root + (if rest.len() > 0 && rest[0] == '/' {
            rest
        } else {
            seq!['/'] + rest
        }) + match req.query {
            Some(q) => seq!['?'] + q@,
            None => Seq::empty(),
        },
{
    reveal_strlit("");
    reveal_strlit("/");
    reveal_strlit("?");
    assert("/"@ == seq!['/']);
    assert("?"@ == seq!['?']);
    assert(""@ == Seq::<char>::empty());
    law_trailing_characters_are_removed(root, '/', slashes);
    if config.strip_prefix is Some {
        law_stripped_prefix_and_rest_make_the_text(req.path@, config.strip_prefix->0@, rest);
    }
    let start = origin(config.base_url@);
    let below = if rest.len() > 0 && rest[0] == '/' {
        rest
    } else {
        seq!['/'] + rest
    };
    assert(rebased(config.base_url.path@, rest) == root + below);
    assert(start + (root + below) == start + root + below);
    let tail = match req.query {
        Some(q) => seq!['?'] + q@,
        None => Seq::<char>::empty(),
    };
    assert(with_query(start + root + below, opt_text(req.query)) == start + root + below + tail);
}

/// The names of the logout parameters are written as they are.
proof fn lemma_logout_names()
    ensures
        form_part("id_token_hint"@) == "id_token_hint"@,
        form_part("post_logout_redirect_uri"@) == "post_logout_redirect_uri"@,
{
    reveal_strlit("id_token_hint");
    reveal_strlit("post_logout_redirect_uri");
    law_unreserved_text_is_written_as_it_is("id_token_hint"@);
    law_unreserved_text_is_written_as_it_is("post_logout_redirect_uri"@);
}

/// The end-session URL is the text of the endpoint, followed by each parameter
/// that is there: the hint where there is a hint, and the post-logout target
/// where there is a target, whether or not the other one is there. They stand
/// behind `?`, or behind `&` where the endpoint has a query.
#[verifier::rlimit(30)]
pub proof fn law_end_session_url_text(
    text: Seq<char>,
    hint: Option<Seq<char>>,
    target: Option<Seq<char>>,
)
    ensures
        ({
            let sep = seq![
                if text.contains('?') {
                    '&'
                } else {
                    '?'
                },
            ];
            end_session_url(text, logout_params(hint, target)) == match (hint, target) {
                (None, None) => text,
                (Some(h), None) => text + sep + "id_token_hint="@ + form_part(h),
                (None, Some(u)) => text + sep + "post_logout_redirect_uri="@ + form_part(u),
                (Some(h), Some(u)) => text + sep + "id_token_hint="@ + form_part(h)
                    + "&post_logout_redirect_uri="@ + form_part(u),
            }
        }),
{
    lemma_logout_names();
    reveal_strlit("&");
    reveal_strlit("?");
    reveal_strlit("=");
    reveal_strlit("id_token_hint");
    reveal_strlit("post_logout_redirect_uri");
    reveal_strlit("id_token_hint=");
    reveal_strlit("post_logout_redirect_uri=");
    reveal_strlit("&post_logout_redirect_uri=");
    assert("id_token_hint"@ + "="@ == "id_token_hint="@);
    assert("post_logout_redirect_uri"@ + "="@ == "post_logout_redirect_uri="@);
    assert("&"@ + "post_logout_redirect_uri="@ == "&post_logout_redirect_uri="@);
    let none = Seq::<char>::empty();
    let sep = seq![
        if text.contains('?') {
            '&'
        } else {
            '?'
        },
    ];
    assert(sep == if text.contains('?') {
        "&"@
    } else {
        "?"@
    });
    let params = logout_params(hint, target);
    let url = end_session_url(text, params);
    reveal_with_fuel(form_text, 3);
    if hint is Some {
        let h = form_part(hint->0);
        let one: Seq<Pair> = seq![("id_token_hint"@, hint->0)];
        assert(none + form_part("id_token_hint"@) + "="@ + h == "id_token_hint="@ + h);
        assert(form_text(one) == "id_token_hint="@ + h);
        if target is Some {
            let u = form_part(target->0);
            assert(params.drop_last() == one);
            assert(params.last() == ("post_logout_redirect_uri"@, target->0));
            assert(form_text(params) == "id_token_hint="@ + h + "&"@ + "post_logout_redirect_uri"@
                + "="@ + u);
            assert(url == text + sep + "id_token_hint="@ + h + "&post_logout_redirect_uri="@ + u);
        } else {
            assert(params == one);
            assert(url == text + sep + "id_token_hint="@ + h);
        }
    } else if target is Some {
        let u = form_part(target->0);
        let one: Seq<Pair> = seq![("post_logout_redirect_uri"@, target->0)];
        assert(params == one);
        assert(none + form_part("post_logout_redirect_uri"@) + "="@ + u
            == "post_logout_redirect_uri="@ + u);
        assert(url == text + sep + "post_logout_redirect_uri="@ + u);
    }
}

/// The end-session URL that is built holds what is given.
pub proof fn law_end_session_url_holds_what_is_given(
    endpoint: &Uri,
    text: String,
    hint: Option<&str>,
    target: Option<&str>,
    r: Result<String, serde_html_form::ser::Error>,
)
    requires
        call_ensures(Uri::text, (endpoint,), text),
        call_ensures(build_end_session_url, (endpoint, hint, target), r),
    ensures
        r is Ok,
        hint is None && target is None ==> r->Ok_0@ == text@,
        hint is Some && target is None ==> r->Ok_0@ == text@ + seq![
            if text@.contains('?') { '&' } else { '?' },
        ] + "id_token_hint="@ + form_part(hint->0@),
        hint is None && target is Some ==> r->Ok_0@ == text@ + seq![
            if text@.contains('?') { '&' } else { '?' },
        ] + "post_logout_redirect_uri="@ + form_part(target->0@),
        hint is Some && target is Some ==> r->Ok_0@ == text@ + seq![
            if text@.contains('?') { '&' } else { '?' },
        ] + "id_token_hint="@ + form_part(hint->0@) + "&post_logout_redirect_uri="@ + form_part(
            target->0@,
        ),
{
    law_end_session_url_text(text@, opt_str(hint), opt_str(target));
}

/// Text is written piece by piece.
pub proof fn law_form_bytes_are_written_in_order(a: Seq<u8>, b: Seq<u8>)
    ensures
        form_bytes(a + b) == form_bytes(a) + form_bytes(b),
    decreases b.len(),
{
    if b.len() == 0 {
        assert(a + b == a);
        assert(form_bytes(a) + Seq::<char>::empty() == form_bytes(a));
    } else {
        law_form_bytes_are_written_in_order(a, b.drop_last());
        assert((a + b).drop_last() == a + b.drop_last());
        assert((a + b).last() == b.last());
        assert(form_bytes(a) + form_bytes(b.drop_last()) + form_byte(b.last()) == form_bytes(a) + (
        form_bytes(b.drop_last()) + form_byte(b.last())));
    }
}

/// The default target after a logout is the base URL without its query, with `/`
/// for an empty path.
pub proof fn law_default_logout_target(config: &LoginConfig, r: String)
    requires
        call_ensures(default_post_logout_redirect, (config,), r),
    ensures
        r@ == (match config.base_url.scheme {
            Some(s) => s@,
            None => "https"@,
        }) + "://"@ + (match config.base_url.authority {
            Some(a) => a@,
            None => Seq::empty(),
        }) + if config.base_url.path@.len() == 0 {
            seq!['/']
        } else {
            config.base_url.path@
        },
{
    reveal_strlit("");
    assert(""@ == Seq::<char>::empty());
    reveal_strlit("/");
    assert("/"@ == seq!['/']);
}

/// How a byte is written in form text: letters, digits and `*`, `-`, `.`, `_` as
/// they are, a space as `+`, and any other byte as `%` and its two hexadecimal
/// digits.
pub proof fn law_form_byte(b: u8)
    ensures
        unreserved(b) <==> ('0' as u8 <= b <= '9' as u8 || 'A' as u8 <= b <= 'Z' as u8 || 'a' as u8
            <= b <= 'z' as u8 || b == '*' as u8 || b == '-' as u8 || b == '.' as u8 || b
            == '_' as u8),
        unreserved(b) ==> form_byte(b) == seq![b as char],
        b == 32 ==> form_byte(b) == seq!['+'],
        !unreserved(b) && b != 32 ==> form_byte(b).len() == 3 && form_byte(b)[0] == '%' && b
            == digit_of(form_byte(b)[1]) * 16 + digit_of(form_byte(b)[2]),
{
}

/// The number that an upper-case hexadecimal digit stands for.
pub open spec fn digit_of(c: char) -> int {
    if '0' <= c <= '9' {
        c as int - '0' as int
    } else if 'A' <= c <= 'F' {
        c as int - 'A' as int + 10
    } else {
        -1
    }
}

/// Form text is made of its pairs in order: the key, `=` and the value, and `&`
/// between one pair and the next.
pub proof fn law_form_text_of_pairs(params: Seq<Pair>, more: Pair)
    ensures
        form_text(Seq::empty()).len() == 0,
        form_text(seq![more]) == form_part(more.0) + seq!['='] + form_part(more.1),
        params.len() > 0 ==> form_text(params.push(more)) == form_text(params) + seq!['&']
            + form_part(more.0) + seq!['='] + form_part(more.1),
{
    reveal_strlit("=");
    reveal_strlit("&");
    assert("="@ == seq!['=']);
    assert("&"@ == seq!['&']);
    assert(params.push(more).drop_last() == params);
    let none = Seq::<char>::empty();
    assert(none + form_part(more.0) == form_part(more.0));
}

/// The origin of a base URL is its scheme, `https` where it has none, `://`, and
/// its authority.
pub proof fn law_origin(base: &Uri, r: String)
    requires
        call_ensures(origin_of, (base,), r),
    ensures
        r@ == (match base.scheme {
            Some(s) => s@,
            None => "https"@,
        }) + "://"@ + match base.authority {
            Some(a) => a@,
            None => Seq::empty(),
        },
{
    reveal_strlit("");
    assert(""@ == Seq::<char>::empty());
}

} // verus!
