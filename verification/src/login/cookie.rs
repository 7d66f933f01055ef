//! Cookie utilities for the login layer.
//!
//! Reading cookies from request headers, cookie attributes, the names of
//! login-state cookies, and the encoding of cookie values.

use base64::engine::general_purpose::URL_SAFE_NO_PAD;
use base64::Engine;
use vstd::prelude::*;

use crate::headers::{
    byte_strings, header_fields, header_values, lower_case_name, text_byte, value_text,
    values_under, visible_text,
};
use crate::text::{
    after, before, cat3, is_space, law_first_occurrence_parts_a_text,
    law_trimming_removes_surrounding_space, lemma_find_is, opt_text, same, split, split_all,
    split_first, texts, trim, trim_end, trim_start, trimmed,
};

verus! {

/// The prefix of the names of login-state cookies.
pub const LOGIN_COOKIE_PREFIX: &'static str = "huskarl_login_";

// ── Names and attributes ─────────────────────────────────────────────────────

/// The name of the login-state cookie for an OAuth `state` value: `__Host-` in
/// front where the cookie is secure and on the root path, `__Secure-` where it
/// is secure on another path, and no prefix otherwise.
pub open spec fn login_cookie_name(state: Seq<char>, secure: bool, path: Seq<char>) -> Seq<char> {
    let prefix = if secure {
        if path == "/"@ {
            "__Host-"@
        } else {
            "__Secure-"@
        }
    } else {
        ""@
    };
    prefix + LOGIN_COOKIE_PREFIX@ + state
}

/// The attributes of a session cookie.
pub open spec fn attributes(secure: bool, path: Seq<char>) -> Seq<char> {
    "HttpOnly; SameSite=Lax; Path="@ + path + if secure {
        "; Secure"@
    } else {
        ""@
    }
}

/// The name of the login-state cookie for an OAuth `state` value.
pub fn login_state_cookie_name(state: &str, secure: bool, path: &str) -> (r: String)
    ensures
        r@ == login_cookie_name(state@, secure, path@),
{
    let prefix = if secure {
        if same(path, "/") {
            "__Host-"
        } else {
            "__Secure-"
        }
    } else {
        ""
    };
    cat3(prefix, LOGIN_COOKIE_PREFIX, state)
}

/// The attribute string of a session cookie:
/// `HttpOnly; SameSite=Lax; Path={path}`, and `; Secure` where `secure` is set.
pub fn cookie_attrs(secure: bool, path: &str) -> (r: String)
    ensures
        r@ == attributes(secure, path@),
{
    let flag = if secure {
        "; Secure"
    } else {
        ""
    };
    cat3("HttpOnly; SameSite=Lax; Path=", path, flag)
}

// ── Reading cookies ──────────────────────────────────────────────────────────

/// A cookie as name and value.
pub type Pair = (Seq<char>, Seq<char>);

/// One piece of a `Cookie` header: `name=value`, without the white space
/// around the piece, the name and the value. A piece without `=` is no cookie.
pub open spec fn cookie_of(piece: Seq<char>) -> Option<Pair> {
    let t = trim(piece);
    match after(t, '=') {
        Some(v) => Some((trim(before(t, '=')), trim(v))),
        None => None,
    }
}

/// The cookies among the pieces of a `Cookie` header.
pub open spec fn cookies_of(pieces: Seq<Seq<char>>) -> Seq<Pair>
    decreases pieces.len(),
{
    if pieces.len() == 0 {
        Seq::empty()
    } else {
        match cookie_of(pieces.last()) {
            Some(p) => cookies_of(pieces.drop_last()).push(p),
            None => cookies_of(pieces.drop_last()),
        }
    }
}

/// The cookies in one `Cookie` header value. A value that is not visible ASCII
/// text holds none.
pub open spec fn cookies_in(value: Seq<u8>) -> Seq<Pair> {
    match value_text(value) {
        Some(s) => cookies_of(split(s, ';')),
        None => Seq::empty(),
    }
}

/// The cookies in a list of `Cookie` header values, in order.
pub open spec fn all_cookies(values: Seq<Seq<u8>>) -> Seq<Pair>
    decreases values.len(),
{
    if values.len() == 0 {
        Seq::empty()
    } else {
        all_cookies(values.drop_last()) + cookies_in(values.last())
    }
}

/// The cookies that a request carries.
pub open spec fn request_cookies(h: http::HeaderMap) -> Seq<Pair> {
    all_cookies(values_under(header_fields(h), "cookie"@))
}

/// The value of the first cookie with the given name.
pub open spec fn first_value(cookies: Seq<Pair>, name: Seq<char>) -> Option<Seq<char>>
    decreases cookies.len(),
{
    if cookies.len() == 0 {
        None
    } else if cookies[0].0 == name {
        Some(cookies[0].1)
    } else {
        first_value(cookies.subrange(1, cookies.len() as int), name)
    }
}

/// The views of a list of cookies.
pub open spec fn pairs(v: Seq<(String, String)>) -> Seq<Pair> {
    v.map_values(|p: (String, String)| (p.0@, p.1@))
}

/// One piece of a `Cookie` header as name and value.
fn read_piece(piece: &str) -> (r: Option<(String, String)>)
    ensures
        match r {
            Some(p) => cookie_of(piece@) == Some((p.0@, p.1@)),
            None => cookie_of(piece@) is None,
        },
{
    let t = trimmed(piece);
    match split_first(t.as_str(), '=') {
        Some((k, v)) => Some((trimmed(k.as_str()), trimmed(v.as_str()))),
        None => None,
    }
}

/// The cookies that a request carries, over all its `Cookie` headers.
pub fn cookies(headers: &http::HeaderMap) -> (r: Vec<(String, String)>)
    ensures
        pairs(r@) == request_cookies(*headers),
{
    proof {
        reveal_strlit("cookie");
        assert(lower_case_name("cookie"@));
    }
    let values = header_values(headers, "cookie");
    let ghost model = byte_strings(values@);
    let mut out: Vec<(String, String)> = Vec::new();
    let mut i: usize = 0;
    assert(pairs(out@) == Seq::<Pair>::empty());
    while i < values.len()
        invariant
            i <= values@.len(),
            model == byte_strings(values@),
            pairs(out@) == all_cookies(model.take(i as int)),
        decreases values@.len() - i,
    {
        let ghost start = out@;
        proof {
            let done = model.take(i + 1);
            assert(done.drop_last() == model.take(i as int));
            assert(done.last() == values@[i as int]@);
        }
        if let Some(s) = visible_text(&values[i]) {
            let pieces = split_all(s.as_str(), ';');
            let ghost views = texts(pieces@);
            let mut j: usize = 0;
            assert(pairs(out@) == pairs(start) + cookies_of(views.take(0)));
            while j < pieces.len()
                invariant
                    j <= pieces@.len(),
                    views == texts(pieces@),
                    pairs(out@) == pairs(start) + cookies_of(views.take(j as int)),
                decreases pieces@.len() - j,
            {
                proof {
                    let done = views.take(j + 1);
                    assert(done.drop_last() == views.take(j as int));
                    assert(done.last() == pieces@[j as int]@);
                }
                let ghost so_far = out@;
                if let Some(p) = read_piece(pieces[j].as_str()) {
                    out.push(p);
                    assert(pairs(out@) == pairs(so_far).push((p.0@, p.1@)));
                    assert(pairs(out@) == pairs(start) + cookies_of(views.take(j + 1)));
                }
                j = j + 1;
            }
            assert(views.take(j as int) == views);
        } else {
            assert(pairs(out@) == pairs(start) + Seq::<Pair>::empty());
        }
        i = i + 1;
    }
    assert(model.take(i as int) == model);
    out
}

/// Extracts a cookie value by name from request headers: the value of the
/// first cookie with that name.
pub fn get_cookie(headers: &http::HeaderMap, name: &str) -> (r: Option<String>)
    ensures
        opt_text(r) == first_value(request_cookies(*headers), name@),
{
    let all = cookies(headers);
    let ghost model = pairs(all@);
    let mut i: usize = 0;
    assert(model.subrange(0, model.len() as int) == model);
    while i < all.len()
        invariant
            i <= all@.len(),
            model == pairs(all@),
            model == request_cookies(*headers),
            first_value(model, name@) == first_value(
                model.subrange(i as int, model.len() as int),
                name@,
            ),
        decreases all@.len() - i,
    {
        let ghost rest = model.subrange(i as int, model.len() as int);
        assert(rest[0] == (all@[i as int].0@, all@[i as int].1@));
        assert(rest.subrange(1, rest.len() as int) == model.subrange(i + 1, model.len() as int));
        if same(all[i].0.as_str(), name) {
            return Some(all[i].1.clone());
        }
        i = i + 1;
    }
    None
}

// ── Encoding cookie values ───────────────────────────────────────────────────

/// The unpadded URL-safe Base64 text of some bytes.
pub uninterp spec fn base64_text(bytes: Seq<u8>) -> Seq<char>;

/// The bytes that an unpadded URL-safe Base64 text stands for, if it is one.
pub uninterp spec fn base64_bytes(text: Seq<char>) -> Option<Seq<u8>>;

/// `c` belongs to the URL-safe Base64 alphabet.
pub open spec fn url_safe_char(c: char) -> bool {
    ||| 'A' <= c <= 'Z'
    ||| 'a' <= c <= 'z'
    ||| '0' <= c <= '9'
    ||| c == '-'
    ||| c == '_'
}

/// `s` is written in the URL-safe Base64 alphabet.
pub open spec fn url_safe(s: Seq<char>) -> bool {
    forall|i: int| 0 <= i < s.len() ==> url_safe_char(#[trigger] s[i])
}

/// Encodes bytes as a cookie value.
///
/// Trusted: `base64::engine::general_purpose::URL_SAFE_NO_PAD.encode` writes
/// four characters of its alphabet for three bytes, without padding, and
/// `decode` of the same engine undoes it.
#[verifier::external_body]
pub(crate) fn encode_value(bytes: &Vec<u8>) -> (r: String)
    ensures
        r@ == base64_text(bytes@),
        url_safe(r@),
        r@.len() == (4 * bytes@.len() + 2) / 3,
        base64_bytes(r@) == Some(bytes@),
{
    URL_SAFE_NO_PAD.encode(bytes)
}

/// Decodes a cookie value.
///
/// Trusted: `base64::engine::general_purpose::URL_SAFE_NO_PAD.decode`, whose
/// result depends on the text alone.
#[verifier::external_body]
pub(crate) fn decode_value(text: &str) -> (r: Option<Vec<u8>>)
    ensures
        match r {
            Some(b) => base64_bytes(text@) == Some(b@),
            None => base64_bytes(text@) is None,
        },
{
    URL_SAFE_NO_PAD.decode(text).ok()
}

// ── Cookies that a browser sends back ────────────────────────────────────────

/// `s` neither begins nor ends with white space.
pub open spec fn tight(s: Seq<char>) -> bool {
    s.len() > 0 ==> !is_space(s[0]) && !is_space(s.last())
}

/// A name that can stand in front of the `=` of a cookie.
pub open spec fn cookie_name(name: Seq<char>) -> bool {
    tight(name) && !name.contains(';') && !name.contains('=')
}

/// A value that can stand behind the `=` of a cookie.
pub open spec fn cookie_value(value: Seq<char>) -> bool {
    tight(value) && !value.contains(';')
}

/// Every cookie of a list has a proper name and value.
pub open spec fn proper(cookies: Seq<Pair>) -> bool {
    forall|i: int|
        0 <= i < cookies.len() ==> cookie_name((#[trigger] cookies[i]).0) && cookie_value(
            cookies[i].1,
        )
}

/// The text of one cookie.
pub open spec fn cookie_text(p: Pair) -> Seq<char> {
    p.0 + "="@ + p.1
}

/// The text of a `Cookie` header that carries the given cookies.
pub open spec fn cookie_line(cookies: Seq<Pair>) -> Seq<char>
    decreases cookies.len(),
{
    if cookies.len() == 0 {
        Seq::empty()
    } else if cookies.len() == 1 {
        cookie_text(cookies[0])
    } else {
        cookie_text(cookies[0]) + "; "@ + cookie_line(cookies.subrange(1, cookies.len() as int))
    }
}

/// The cookies can be sent in one `Cookie` header and be told apart in it: the
/// names hold no `;` and no `=`, the values no `;`, none begins or ends with
/// white space, and the header is made of visible ASCII, spaces and tabs.
pub open spec fn one_header(jar: Seq<Pair>) -> bool {
    proper(jar) && visible(cookie_line(jar))
}

/// The cookies of several `Cookie` headers can be sent, each jar in a header of
/// its own.
pub open spec fn each_fits(jars: Seq<Seq<Pair>>) -> bool {
    forall|i: int| 0 <= i < jars.len() ==> one_header(#[trigger] jars[i])
}

/// The cookies of several jars, in order.
pub open spec fn all_of(jars: Seq<Seq<Pair>>) -> Seq<Pair>
    decreases jars.len(),
{
    if jars.len() == 0 {
        Seq::empty()
    } else {
        all_of(jars.drop_last()) + jars.last()
    }
}

/// The `Cookie` headers of a request that carries the cookies of several jars.
pub open spec fn cookie_headers(jars: Seq<Seq<Pair>>) -> Seq<Seq<u8>> {
    jars.map_values(|jar: Seq<Pair>| ascii_bytes(cookie_line(jar)))
}

/// The cookies that are read from `Cookie` headers which carry those of several
/// jars.
pub open spec fn received(jars: Seq<Seq<Pair>>) -> Seq<Pair> {
    all_cookies(cookie_headers(jars))
}

/// White space around a tight text is trimmed, and nothing else.
proof fn lemma_trim_tight(s: Seq<char>)
    requires
        tight(s),
    ensures
        trim(s) == s,
        trim(" "@ + s) == s,
{
    reveal_strlit(" ");
    let padded = " "@ + s;
    assert(padded.subrange(1, padded.len() as int) == s);
    assert(trim_start(s) == s);
    assert(trim_start(padded) == s) by {
        assert(is_space(padded[0]));
    }
    assert(trim_end(s) == s);
}

/// A proper cookie is read back from its text, with or without a space in
/// front.
proof fn lemma_cookie_text(p: Pair)
    requires
        cookie_name(p.0),
        cookie_value(p.1),
    ensures
        cookie_of(cookie_text(p)) == Some(p),
        cookie_of(" "@ + cookie_text(p)) == Some(p),
        !cookie_text(p).contains(';'),
        tight(cookie_text(p)),
{
    reveal_strlit("=");
    let t = cookie_text(p);
    let k = p.0.len() as int;
    assert(t[k] == '=');
    assert forall|j: int| 0 <= j < k implies t[j] != '=' by {
        assert(t[j] == p.0[j]);
        assert(p.0.contains(p.0[j]));
    }
    lemma_find_is(t, '=', k);
    assert(t.subrange(0, k) == p.0);
    assert(t.subrange(k + 1, t.len() as int) == p.1);
    assert forall|j: int| 0 <= j < t.len() implies t[j] != ';' by {
        if j < k {
            assert(t[j] == p.0[j]);
            assert(p.0.contains(p.0[j]));
        } else if j > k {
            assert(t[j] == p.1[j - k - 1]);
            assert(p.1.contains(p.1[j - k - 1]));
        }
    }
    assert(tight(t)) by {
        if p.0.len() > 0 {
            assert(t[0] == p.0[0]);
        }
        if p.1.len() > 0 {
            assert(t.last() == p.1.last());
        } else {
            assert(t.last() == '=');
        }
    }
    lemma_trim_tight(t);
    lemma_trim_tight(p.0);
    lemma_trim_tight(p.1);
}

/// Reading pieces one after another reads their concatenation.
proof fn lemma_cookies_of_concat(a: Seq<Seq<char>>, b: Seq<Seq<char>>)
    ensures
        cookies_of(a + b) == cookies_of(a) + cookies_of(b),
    decreases b.len(),
{
    if b.len() == 0 {
        assert(a + b == a);
        assert(cookies_of(a) + cookies_of(b) == cookies_of(a));
    } else {
        lemma_cookies_of_concat(a, b.drop_last());
        assert((a + b).drop_last() == a + b.drop_last());
        assert((a + b).last() == b.last());
        match cookie_of(b.last()) {
            Some(p) => {
                assert(cookies_of(a) + cookies_of(b.drop_last()).push(p) == (cookies_of(a)
                    + cookies_of(b.drop_last())).push(p));
            },
            None => {},
        }
    }
}

/// The first piece of a cookie line, with or without a space in front.
proof fn lemma_first_piece(first: Pair, lead: Seq<char>)
    requires
        cookie_name(first.0),
        cookie_value(first.1),
        lead.len() == 0 || lead == " "@,
    ensures
        cookie_of(lead + cookie_text(first)) == Some(first),
        cookies_of(seq![lead + cookie_text(first)]) == seq![first],
        forall|j: int|
            0 <= j < (lead + cookie_text(first)).len() ==> #[trigger] (lead + cookie_text(
                first,
            ))[j] != ';',
{
    reveal_strlit(" ");
    lemma_cookie_text(first);
    let text = cookie_text(first);
    let piece = lead + text;
    if lead.len() == 0 {
        assert(piece == text);
    }
    assert forall|j: int| 0 <= j < piece.len() implies #[trigger] piece[j] != ';' by {
        if j >= lead.len() {
            assert(piece[j] == text[j - lead.len()]);
            assert(text.contains(piece[j]));
        }
    }
    reveal_with_fuel(cookies_of, 2);
    assert(seq![piece].drop_last() == Seq::<Seq<char>>::empty());
    assert(cookies_of(seq![piece]) == seq![first]);
}

/// The pieces of an empty cookie line hold no cookie.
proof fn lemma_no_pieces(lead: Seq<char>)
    requires
        lead.len() == 0 || lead == " "@,
    ensures
        cookies_of(split(lead, ';')) == Seq::<Pair>::empty(),
{
    reveal_strlit(" ");
    let none = Seq::<char>::empty();
    lemma_find_is(lead, ';', lead.len() as int);
    assert(split(lead, ';') == seq![lead]);
    lemma_trim_tight(none);
    assert(lead == none || lead == " "@ + none);
    assert(trim(lead) == none);
    lemma_find_is(none, '=', 0);
    assert(cookie_of(lead) is None);
    reveal_with_fuel(cookies_of, 2);
    assert(seq![lead].drop_last() == Seq::<Seq<char>>::empty());
}

/// A line whose first piece is `piece`, followed by `; ` and `more`, splits
/// into that piece and the pieces of the rest.
proof fn lemma_split_line(piece: Seq<char>, more: Seq<char>)
    requires
        forall|j: int| 0 <= j < piece.len() ==> #[trigger] piece[j] != ';',
    ensures
        split(piece + "; "@ + more, ';') == seq![piece] + split(" "@ + more, ';'),
{
    reveal_strlit(" ");
    reveal_strlit("; ");
    let line = piece + "; "@ + more;
    let k = piece.len() as int;
    assert(line[k] == ';');
    assert forall|j: int| 0 <= j < k implies line[j] != ';' by {
        assert(line[j] == piece[j]);
    }
    lemma_find_is(line, ';', k);
    assert(line.subrange(0, k) == piece);
    assert(line.subrange(k + 1, line.len() as int) == " "@ + more);
}

/// The pieces of a cookie line, with or without a space in front, are read back
/// as its cookies.
proof fn lemma_line_pieces(cookies: Seq<Pair>, lead: Seq<char>)
    requires
        proper(cookies),
        lead.len() == 0 || lead == " "@,
    ensures
        cookies_of(split(lead + cookie_line(cookies), ';')) == cookies,
    decreases cookies.len(),
{
    let line = lead + cookie_line(cookies);
    if cookies.len() == 0 {
        assert(line == lead);
        lemma_no_pieces(lead);
        assert(cookies == Seq::<Pair>::empty());
    } else {
        let first = cookies[0];
        let piece = lead + cookie_text(first);
        lemma_first_piece(first, lead);
        if cookies.len() == 1 {
            assert(line == piece);
            lemma_find_is(line, ';', line.len() as int);
            assert(split(line, ';') == seq![line]);
            assert(cookies == seq![first]);
        } else {
            let rest = cookies.subrange(1, cookies.len() as int);
            assert forall|i: int| 0 <= i < rest.len() implies cookie_name((#[trigger] rest[i]).0)
                && cookie_value(rest[i].1) by {
                assert(rest[i] == cookies[i + 1]);
            }
            lemma_line_pieces(rest, " "@);
            assert(line == piece + "; "@ + cookie_line(rest));
            lemma_split_line(piece, cookie_line(rest));
            lemma_cookies_of_concat(seq![piece], split(" "@ + cookie_line(rest), ';'));
            assert(seq![first] + rest == cookies);
        }
    }
}

/// The bytes of an ASCII text.
pub open spec fn ascii_bytes(s: Seq<char>) -> Seq<u8> {
    Seq::new(s.len(), |i: int| s[i] as u8)
}

/// `c` is visible ASCII, space or tab.
pub open spec fn visible_char(c: char) -> bool {
    32 <= c as u32 && (c as u32) < 127 || c as u32 == 9
}

/// `s` is made of visible ASCII, spaces and tabs.
pub open spec fn visible(s: Seq<char>) -> bool {
    forall|i: int| 0 <= i < s.len() ==> visible_char(#[trigger] s[i])
}

/// A visible ASCII character is its own byte.
proof fn lemma_visible_char(c: char)
    requires
        visible_char(c),
    ensures
        text_byte(c as u8),
        (c as u8) as char == c,
{
}

/// The cookies in one `Cookie` header are read as they were written.
proof fn lemma_header_round_trip(cookies: Seq<Pair>)
    requires
        one_header(cookies),
    ensures
        cookies_in(ascii_bytes(cookie_line(cookies))) == cookies,
{
    reveal_strlit("");
    let line = cookie_line(cookies);
    let bytes = ascii_bytes(line);
    lemma_line_pieces(cookies, ""@);
    assert(""@ + line == line);
    assert forall|i: int| 0 <= i < bytes.len() implies text_byte(
        #[trigger] bytes[i],
    ) by {
        lemma_visible_char(line[i]);
    }
    assert(Seq::new(bytes.len(), |i: int| bytes[i] as char) == line) by {
        assert forall|i: int| 0 <= i < line.len() implies (#[trigger] bytes[i]) as char == line[i] by {
            lemma_visible_char(line[i]);
        }
    }
    assert(value_text(bytes) == Some(line));
}

/// Cookies that are sent back, in any number of `Cookie` headers, are read as
/// they were set.
pub proof fn law_cookies_round_trip(jars: Seq<Seq<Pair>>)
    requires
        each_fits(jars),
    ensures
        received(jars) == all_of(jars),
    decreases jars.len(),
{
    if jars.len() > 0 {
        let fewer = jars.drop_last();
        let headers = cookie_headers(jars);
        assert forall|i: int| 0 <= i < fewer.len() implies one_header(#[trigger] fewer[i]) by {
            assert(fewer[i] == jars[i]);
        }
        law_cookies_round_trip(fewer);
        assert(headers.drop_last() == cookie_headers(fewer));
        assert(headers.last() == ascii_bytes(cookie_line(jars.last())));
        lemma_header_round_trip(jars.last());
    }
}

/// Every cookie of a jar is among those of all jars, and the other way round.
pub proof fn lemma_all_of_contains(jars: Seq<Seq<Pair>>, p: Pair)
    ensures
        all_of(jars).contains(p) <==> exists|i: int|
            0 <= i < jars.len() && (#[trigger] jars[i]).contains(p),
    decreases jars.len(),
{
    if jars.len() > 0 {
        let fewer = jars.drop_last();
        let some = all_of(fewer);
        let more = jars.last();
        lemma_all_of_contains(fewer, p);
        if all_of(jars).contains(p) {
            let k = choose|k: int| 0 <= k < all_of(jars).len() && all_of(jars)[k] == p;
            if k < some.len() {
                assert(some[k] == p);
                let i = choose|i: int| 0 <= i < fewer.len() && (#[trigger] fewer[i]).contains(p);
                assert(jars[i].contains(p));
            } else {
                assert(more[k - some.len()] == p);
                assert(jars[jars.len() - 1].contains(p));
            }
        }
        if exists|i: int| 0 <= i < jars.len() && (#[trigger] jars[i]).contains(p) {
            let i = choose|i: int| 0 <= i < jars.len() && (#[trigger] jars[i]).contains(p);
            if i < fewer.len() {
                assert(fewer[i].contains(p));
                let k = choose|k: int| 0 <= k < some.len() && some[k] == p;
                assert(all_of(jars)[k] == p);
            } else {
                let k = choose|k: int| 0 <= k < more.len() && more[k] == p;
                assert(all_of(jars)[some.len() + k] == p);
            }
        }
    }
}

/// The first cookie with a name is found whatever follows it.
pub proof fn lemma_first_value(cookies: Seq<Pair>, i: int)
    requires
        0 <= i < cookies.len(),
        forall|j: int| 0 <= j < i ==> (#[trigger] cookies[j]).0 != cookies[i].0,
    ensures
        first_value(cookies, cookies[i].0) == Some(cookies[i].1),
    decreases i,
{
    if i > 0 {
        let rest = cookies.subrange(1, cookies.len() as int);
        assert(cookies[0].0 != cookies[i].0);
        assert(rest[i - 1] == cookies[i]);
        assert forall|j: int| 0 <= j < i - 1 implies (#[trigger] rest[j]).0 != rest[i - 1].0 by {
            assert(rest[j] == cookies[j + 1]);
        }
        lemma_first_value(rest, i - 1);
    }
}

// ── Laws ─────────────────────────────────────────────────────────────────────

/// The name of a login-state cookie ends with the `state` value, behind a
/// prefix that says whether the cookie is secure and on the root path.
pub proof fn law_login_cookie_name_says_how_it_is_set(
    state: &str,
    secure: bool,
    path: &str,
    r: String,
)
    requires
        call_ensures(login_state_cookie_name, (state, secure, path), r),
    ensures
        !secure ==> r@ == "huskarl_login_"@ + state@,
        secure && path@ == seq!['/'] ==> r@ == "__Host-huskarl_login_"@ + state@,
        secure && path@ != seq!['/'] ==> r@ == "__Secure-huskarl_login_"@ + state@,
{
    reveal_strlit("");
    reveal_strlit("/");
    reveal_strlit("__Host-");
    reveal_strlit("__Secure-");
    reveal_strlit("huskarl_login_");
    reveal_strlit("__Host-huskarl_login_");
    reveal_strlit("__Secure-huskarl_login_");
    assert("/"@ == seq!['/']);
    assert(""@ + "huskarl_login_"@ == "huskarl_login_"@);
    assert("__Host-"@ + "huskarl_login_"@ == "__Host-huskarl_login_"@);
    assert("__Secure-"@ + "huskarl_login_"@ == "__Secure-huskarl_login_"@);
}

/// Two flows have two cookies.
pub proof fn law_flows_have_cookies_of_their_own(
    first: &str,
    second: &str,
    secure: bool,
    path: &str,
    a: String,
    b: String,
)
    requires
        call_ensures(login_state_cookie_name, (first, secure, path), a),
        call_ensures(login_state_cookie_name, (second, secure, path), b),
        a@ == b@,
    ensures
        first@ == second@,
{
    law_login_cookie_name_says_how_it_is_set(first, secure, path, a);
    law_login_cookie_name_says_how_it_is_set(second, secure, path, b);
    let n = a@.len() - first@.len();
    assert(first@ == a@.subrange(n, a@.len() as int));
    assert(second@ == b@.subrange(n, b@.len() as int));
}

/// The attributes of a session cookie keep it from scripts and other sites, name
/// its path, and say `Secure` exactly where asked.
pub proof fn law_cookie_attributes(secure: bool, path: &str, r: String)
    requires
        call_ensures(cookie_attrs, (secure, path), r),
    ensures
        secure ==> r@ == "HttpOnly; SameSite=Lax; Path="@ + path@ + "; Secure"@,
        !secure ==> r@ == "HttpOnly; SameSite=Lax; Path="@ + path@,
{
    reveal_strlit("");
    assert("HttpOnly; SameSite=Lax; Path="@ + path@ + ""@ == "HttpOnly; SameSite=Lax; Path="@
        + path@);
}

/// The value of the first cookie with a name: there is one exactly where a
/// cookie has that name, and none of those before it has.
pub proof fn law_first_value(cookies: Seq<Pair>, name: Seq<char>)
    ensures
        match first_value(cookies, name) {
            Some(v) => exists|i: int|
                0 <= i < cookies.len() && #[trigger] cookies[i] == (name, v) && forall|j: int|
                    0 <= j < i ==> (#[trigger] cookies[j]).0 != name,
            None => forall|i: int| 0 <= i < cookies.len() ==> (#[trigger] cookies[i]).0 != name,
        },
    decreases cookies.len(),
{
    if cookies.len() > 0 {
        let rest = cookies.subrange(1, cookies.len() as int);
        if cookies[0].0 == name {
            assert(cookies[0] == (name, cookies[0].1));
        } else {
            law_first_value(rest, name);
            match first_value(rest, name) {
                Some(v) => {
                    let i = choose|i: int|
                        0 <= i < rest.len() && #[trigger] rest[i] == (name, v) && forall|j: int|
                            0 <= j < i ==> (#[trigger] rest[j]).0 != name;
                    assert(cookies[i + 1] == (name, v));
                    assert forall|j: int| 0 <= j < i + 1 implies (#[trigger] cookies[j]).0
                        != name by {
                        if j > 0 {
                            assert(rest[j - 1] == cookies[j]);
                        }
                    }
                },
                None => {
                    assert forall|i: int| 0 <= i < cookies.len() implies (#[trigger] cookies[i]).0
                        != name by {
                        if i > 0 {
                            assert(rest[i - 1] == cookies[i]);
                        }
                    }
                },
            }
        }
    }
}

/// A cookie is found by its name among those of the request: the first that has
/// it.
pub proof fn law_get_cookie_finds_the_first(
    headers: &http::HeaderMap,
    name: &str,
    all: Vec<(String, String)>,
    r: Option<String>,
)
    requires
        call_ensures(cookies, (headers,), all),
        call_ensures(get_cookie, (headers, name), r),
    ensures
        match r {
            Some(v) => exists|i: int|
                0 <= i < all@.len() && (#[trigger] all@[i]).0@ == name@ && all@[i].1@ == v@
                    && forall|j: int| 0 <= j < i ==> (#[trigger] all@[j]).0@ != name@,
            None => forall|i: int| 0 <= i < all@.len() ==> (#[trigger] all@[i]).0@ != name@,
        },
{
    let model = pairs(all@);
    law_first_value(model, name@);
    match r {
        Some(v) => {
            let i = choose|i: int|
                0 <= i < model.len() && #[trigger] model[i] == (name@, v@) && forall|j: int|
                    0 <= j < i ==> (#[trigger] model[j]).0 != name@;
            assert(all@[i].0@ == name@);
            assert forall|j: int| 0 <= j < i implies (#[trigger] all@[j]).0@ != name@ by {
                assert(model[j].0 != name@);
            }
        },
        None => {
            assert forall|i: int| 0 <= i < all@.len() implies (#[trigger] all@[i]).0@ != name@ by {
                assert(model[i].0 != name@);
            }
        },
    }
}

/// The cookies that a browser sends, in any number of `Cookie` headers, are read
/// from the headers of its request, all of them and in order.
pub proof fn law_cookies_of_the_request(
    headers: &http::HeaderMap,
    jars: Seq<Seq<Pair>>,
    r: Vec<(String, String)>,
)
    requires
        each_fits(jars),
        values_under(header_fields(*headers), "cookie"@) == cookie_headers(jars),
        call_ensures(cookies, (headers,), r),
    ensures
        pairs(r@) == all_of(jars),
{
    law_cookies_round_trip(jars);
}

/// The cookies of a request that a browser sends are those of its jars, read
/// one after another.
pub proof fn law_jars_are_read_in_order(jars: Seq<Seq<Pair>>, more: Seq<Pair>)
    ensures
        all_of(Seq::<Seq<Pair>>::empty()).len() == 0,
        all_of(jars.push(more)) == all_of(jars) + more,
{
    assert(jars.push(more).drop_last() == jars);
}

/// White space is dropped around the name and around the value of a cookie, and
/// a piece without `=` is no cookie.
pub proof fn law_cookie_pieces(
    front: Seq<char>,
    name: Seq<char>,
    inner: Seq<char>,
    lead: Seq<char>,
    value: Seq<char>,
    back: Seq<char>,
    other: Seq<char>,
)
    requires
        forall|i: int| 0 <= i < front.len() ==> is_space(#[trigger] front[i]),
        forall|i: int| 0 <= i < inner.len() ==> is_space(#[trigger] inner[i]),
        forall|i: int| 0 <= i < lead.len() ==> is_space(#[trigger] lead[i]),
        forall|i: int| 0 <= i < back.len() ==> is_space(#[trigger] back[i]),
        name.len() > 0,
        !is_space(name[0]) && !is_space(name.last()),
        !name.contains('='),
        value.len() > 0,
        !is_space(value[0]) && !is_space(value.last()),
        !other.contains('='),
    ensures
        cookie_of(front + (name + inner + seq!['='] + lead + value) + back) == Some((name, value)),
        cookie_of(other) is None,
{
    let t = name + inner + seq!['='] + lead + value;
    assert(t[0] == name[0]);
    assert(t.last() == value.last());
    law_trimming_removes_surrounding_space(front, t, back);
    let k = (name + inner).len() as int;
    assert(t[k] == '=');
    assert forall|j: int| 0 <= j < k implies t[j] != '=' by {
        if j < name.len() {
            assert(t[j] == name[j]);
            assert(name.contains(name[j]));
        } else {
            assert(t[j] == inner[j - name.len()]);
        }
    }
    lemma_find_is(t, '=', k);
    let none = Seq::<char>::empty();
    assert(t.subrange(0, k) == none + name + inner);
    assert(t.subrange(k + 1, t.len() as int) == lead + value + none);
    law_trimming_removes_surrounding_space(none, name, inner);
    law_trimming_removes_surrounding_space(lead, value, none);
    lemma_trim_within(other);
    law_first_occurrence_parts_a_text(trim(other), '=');
}

/// What is left after trimming was there before.
proof fn lemma_trim_within(s: Seq<char>)
    ensures
        forall|c: char| #[trigger] trim(s).contains(c) ==> s.contains(c),
{
    lemma_trim_start_within(s);
    lemma_trim_end_within(trim_start(s));
    assert forall|c: char| #[trigger] trim(s).contains(c) implies s.contains(c) by {
        assert(trim_end(trim_start(s)).contains(c));
        assert(trim_start(s).contains(c));
    }
}

proof fn lemma_trim_start_within(s: Seq<char>)
    ensures
        forall|c: char| #[trigger] trim_start(s).contains(c) ==> s.contains(c),
    decreases s.len(),
{
    if s.len() > 0 && is_space(s[0]) {
        let rest = s.subrange(1, s.len() as int);
        lemma_trim_start_within(rest);
        assert forall|c: char| #[trigger] trim_start(s).contains(c) implies s.contains(c) by {
            assert(trim_start(rest).contains(c));
            let i = choose|i: int| 0 <= i < rest.len() && rest[i] == c;
            assert(s[i + 1] == c);
        }
    }
}

proof fn lemma_trim_end_within(s: Seq<char>)
    ensures
        forall|c: char| #[trigger] trim_end(s).contains(c) ==> s.contains(c),
    decreases s.len(),
{
    if s.len() > 0 && is_space(s.last()) {
        let rest = s.drop_last();
        lemma_trim_end_within(rest);
        assert forall|c: char| #[trigger] trim_end(s).contains(c) implies s.contains(c) by {
            assert(trim_end(rest).contains(c));
            let i = choose|i: int| 0 <= i < rest.len() && rest[i] == c;
            assert(s[i] == c);
        }
    }
}

/// `Cookie` headers are read one after another, and the pieces of each in order; a
/// header that is not visible ASCII text is passed over.
pub proof fn law_headers_are_read_in_order(
    values: Seq<Seq<u8>>,
    value: Seq<u8>,
    pieces: Seq<Seq<char>>,
    piece: Seq<char>,
)
    ensures
        all_cookies(Seq::empty()).len() == 0,
        all_cookies(values.push(value)) == all_cookies(values) + all_cookies(seq![value]),
        (exists|i: int|
            0 <= i < value.len() && ((#[trigger] value[i]) < 32 && value[i] != 9 || value[i]
                >= 127)) ==> all_cookies(seq![value]).len() == 0,
        cookies_of(Seq::empty()).len() == 0,
        cookie_of(piece) is Some ==> cookies_of(pieces.push(piece)) == cookies_of(pieces).push(
            cookie_of(piece)->0,
        ),
        cookie_of(piece) is None ==> cookies_of(pieces.push(piece)) == cookies_of(pieces),
{
    assert(values.push(value).drop_last() == values);
    assert(pieces.push(piece).drop_last() == pieces);
    let none = Seq::<Seq<u8>>::empty();
    assert(seq![value].drop_last() == none);
    assert(all_cookies(none) == Seq::<Pair>::empty());
    assert(Seq::<Pair>::empty() + cookies_in(value) == cookies_in(value));
    assert(all_cookies(seq![value]) == cookies_in(value));
    if exists|i: int|
        0 <= i < value.len() && ((#[trigger] value[i]) < 32 && value[i] != 9 || value[i] >= 127) {
        let i = choose|i: int|
            0 <= i < value.len() && ((#[trigger] value[i]) < 32 && value[i] != 9 || value[i]
                >= 127);
        assert(!text_byte(value[i]));
    }
}

/// The cookies of a request are those of its `Cookie` headers: of each header the
/// pieces between semicolons.
pub proof fn law_cookie_header_is_cut_at_semicolons(
    headers: &http::HeaderMap,
    bytes: &Vec<u8>,
    text: Option<String>,
    r: Vec<(String, String)>,
)
    requires
        header_fields(*headers).dom().contains("cookie"@),
        header_fields(*headers)["cookie"@] == seq![bytes@],
        call_ensures(visible_text, (bytes,), text),
        call_ensures(cookies, (headers,), r),
    ensures
        text is None ==> r@.len() == 0,
        text is Some ==> pairs(r@) == cookies_of(split(text->0@, ';')),
{
    law_headers_are_read_in_order(Seq::empty(), bytes@, Seq::empty(), Seq::empty());
    let none = Seq::<Seq<u8>>::empty();
    assert(seq![bytes@].drop_last() == none);
    assert(all_cookies(none) == Seq::<Pair>::empty());
    assert(Seq::<Pair>::empty() + cookies_in(bytes@) == cookies_in(bytes@));
    assert(pairs(r@).len() == r@.len());
}

/// A request without `Cookie` headers carries no cookies.
pub proof fn law_no_header_no_cookies(headers: &http::HeaderMap, r: Vec<(String, String)>)
    requires
        !header_fields(*headers).dom().contains("cookie"@),
        call_ensures(cookies, (headers,), r),
    ensures
        r@.len() == 0,
{
    assert(pairs(r@).len() == r@.len());
}

} // verus!
