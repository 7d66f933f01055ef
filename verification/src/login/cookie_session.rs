//! Cookie-based session storage.
//!
//! [`CookieSessionStore`] keeps a sealed session in browser cookies. A large
//! session is split over several cookies (`.0`, `.1`, …) to stay within the
//! size limits of browsers.

use vstd::prelude::*;

use crate::headers::{
    add_value, bad_append_text, encoded, head_of, header_fields, header_safe,
    lemma_add_values_push, lemma_header_safe_concat, only_new, response_fields, response_names,
    response_status, takes, values_under, Head, HeaderField, MAX_HEADER_NAMES,
};
use crate::login::cookie::{
    all_of, attributes, base64_bytes, base64_text, cookie_attrs, cookie_headers, cookie_line,
    cookie_name, cookie_text, cookie_value, cookies, decode_value, each_fits, encode_value,
    law_cookies_round_trip, lemma_all_of_contains, one_header, pairs, proper, received,
    request_cookies, url_safe, url_safe_char, visible, visible_char, Pair,
};
use crate::login::grant::CompletedLogin;
use crate::login::session::SessionError;
use crate::login::token_session::{
    initial_state, law_stored_state_loads, loaded_state, stored_state, StoredState, TokenSession,
    TokenState,
};
use crate::text::{
    after, before, cat3, chars_of, decimal, decimal_text, is_digit, is_space,
    law_first_occurrence_parts_a_text, law_stripped_prefix_and_rest_make_the_text, lemma_decimal,
    lemma_find_is, lemma_number_of_decimal, number, opt_text, parse_number, split_first, string_of,
    strip_prefix, strip_text,
};

verus! {

/// Associated data with which a session is sealed.
pub const SESSION_LABEL: &'static str = "session";

/// The number of characters in a chunk.
pub const CHUNK_SIZE: usize = 3800;

/// The largest number of chunks.
pub const MAX_CHUNKS: usize = 10;

// ── The cookies of a session ─────────────────────────────────────────────────

/// The number of chunks for a text of the given length.
pub open spec fn chunk_count(len: nat) -> nat {
    len / (CHUNK_SIZE as nat) + if len % (CHUNK_SIZE as nat) == 0 {
        0nat
    } else {
        1nat
    }
}

/// The `i`-th chunk of a text.
pub open spec fn chunk(text: Seq<char>, i: int) -> Seq<char> {
    let end = (i + 1) * CHUNK_SIZE;
    text.subrange(
        i * CHUNK_SIZE,
        if end < text.len() {
            end
        } else {
            text.len() as int
        },
    )
}

/// The name of the `i`-th cookie of a session.
pub open spec fn chunk_name(name: Seq<char>, i: nat) -> Seq<char> {
    name + "."@ + decimal(i)
}

/// The value of the `i`-th cookie: the chunk, with the number of chunks and a
/// colon in front of the first one.
pub open spec fn chunk_value(text: Seq<char>, i: int) -> Seq<char> {
    if i == 0 {
        decimal(chunk_count(text.len())) + ":"@ + chunk(text, 0)
    } else {
        chunk(text, i)
    }
}

/// The `Set-Cookie` line that sets a cookie.
pub open spec fn set_line(name: Seq<char>, value: Seq<char>, attrs: Seq<char>) -> Seq<char> {
    name + "="@ + value + "; "@ + attrs
}

/// The `Set-Cookie` line that clears a cookie.
pub open spec fn clear_line(name: Seq<char>, attrs: Seq<char>) -> Seq<char> {
    name + "=; "@ + attrs + "; Max-Age=0"@
}

/// The lines that set the first `k` chunks of a text.
pub open spec fn chunk_lines(name: Seq<char>, text: Seq<char>, attrs: Seq<char>, k: nat) -> Seq<
    Seq<char>,
> {
    Seq::new(k, |i: int| set_line(chunk_name(name, i as nat), chunk_value(text, i), attrs))
}

/// The lines that clear the chunks from `from` up to `to`.
pub open spec fn clear_lines(name: Seq<char>, attrs: Seq<char>, from: nat, to: nat) -> Seq<
    Seq<char>,
> {
    Seq::new(
        (to - from) as nat,
        |i: int| clear_line(chunk_name(name, (from + i) as nat), attrs),
    )
}

/// The lines that store a text: its chunks, the clearing of the chunks that a
/// larger session may have left, and the clearing of the bare name.
pub open spec fn saved_lines(name: Seq<char>, text: Seq<char>, attrs: Seq<char>) -> Seq<Seq<char>> {
    let n = chunk_count(text.len());
    chunk_lines(name, text, attrs, n) + clear_lines(name, attrs, n, MAX_CHUNKS as nat)
        + seq![clear_line(name, attrs)]
}

/// The lines that remove a session.
pub open spec fn removal_lines(name: Seq<char>, attrs: Seq<char>) -> Seq<Seq<char>> {
    seq![clear_line(name, attrs)] + clear_lines(name, attrs, 0, MAX_CHUNKS as nat)
}

// ── Reading the cookies of a session ─────────────────────────────────────────

/// The number of the chunk that a cookie name stands for.
pub open spec fn chunk_number(key: Seq<char>, name: Seq<char>) -> Option<nat> {
    match strip_prefix(key, name) {
        Some(suffix) => match strip_prefix(suffix, "."@) {
            Some(digits) => number(digits),
            None => None,
        },
        None => None,
    }
}

/// The value of the last cookie that holds the `i`-th chunk.
pub open spec fn chunk_in(cookies: Seq<Pair>, name: Seq<char>, i: nat) -> Option<Seq<char>>
    decreases cookies.len(),
{
    if cookies.len() == 0 {
        None
    } else if chunk_number(cookies.last().0, name) == Some(i) {
        Some(cookies.last().1)
    } else {
        chunk_in(cookies.drop_last(), name, i)
    }
}

/// The chunks from `i` up to `count`, one after another, if none is missing.
pub open spec fn gathered(cookies: Seq<Pair>, name: Seq<char>, i: nat, count: nat) -> Option<
    Seq<char>,
>
    decreases count - i,
{
    if i >= count {
        Some(Seq::empty())
    } else {
        match chunk_in(cookies, name, i) {
            None => None,
            Some(v) => match gathered(cookies, name, i + 1, count) {
                None => None,
                Some(rest) => Some(v + rest),
            },
        }
    }
}

/// The text that the cookies of a request hold: chunk 0 announces the number
/// of chunks, and all of them are there.
pub open spec fn stored_text(cookies: Seq<Pair>, name: Seq<char>) -> Option<Seq<char>> {
    match chunk_in(cookies, name, 0) {
        None => None,
        Some(first) => match after(first, ':') {
            None => None,
            Some(data) => match number(before(first, ':')) {
                None => None,
                Some(count) => match gathered(cookies, name, 1, count) {
                    None => None,
                    Some(rest) => Some(data + rest),
                },
            },
        },
    }
}

/// The sealed session that the cookies of a request hold.
pub open spec fn stored_bundle(cookies: Seq<Pair>, name: Seq<char>) -> Option<Seq<u8>> {
    match stored_text(cookies, name) {
        Some(text) => base64_bytes(text),
        None => None,
    }
}

/// A session whose token state is kept in browser cookies.
pub struct CookieSession(pub TokenState);

impl TokenSession for CookieSession {
    open spec fn state(&self) -> TokenState {
        self.0
    }

    fn token_state(&self) -> (r: &TokenState) {
        &self.0
    }

    fn set_token_state(&mut self, state: TokenState) {
        self.0 = state;
    }
}

/// A built-in session store that keeps session data in chunked cookies.
///
/// # Cookie format
///
/// - Cookie name: `{name}.0`, `{name}.1`, etc.
/// - Chunk 0 value: `{count}:{data}` where count is the total number of chunks
/// - Other chunks: the data continued
/// - Attributes: `HttpOnly; SameSite=Lax; Path={path}` plus optional `Secure`
#[derive(Debug)]
pub struct CookieSessionStore {
    /// The base name of the session cookies.
    pub cookie_name: String,
    /// Whether the cookies have the `Secure` attribute.
    pub secure: bool,
    /// The `Path` attribute of the cookies.
    pub cookie_path: String,
}

/// The `Set-Cookie` line that sets a cookie.
pub fn set_cookie_line(name: &str, value: &str, attrs: &str) -> (r: String)
    ensures
        r@ == set_line(name@, value@, attrs@),
{
    let mut out = cat3(name, "=", value);
    out.append("; ");
    out.append(attrs);
    out
}

/// The `Set-Cookie` line that clears a cookie.
pub fn clear_cookie_line(name: &str, attrs: &str) -> (r: String)
    ensures
        r@ == clear_line(name@, attrs@),
{
    let mut out = cat3(name, "=; ", attrs);
    out.append("; Max-Age=0");
    out
}

/// The attributes of a session cookie are fit for a header where its path is.
pub proof fn lemma_attributes_safe(secure: bool, path: Seq<char>)
    ensures
        header_safe(attributes(secure, path)) == header_safe(path),
{
    broadcast use lemma_header_safe_concat;

    reveal_strlit("HttpOnly; SameSite=Lax; Path=");
    reveal_strlit("; Secure");
    reveal_strlit("");
}

/// Set and clear lines are fit for a header where their parts are.
pub proof fn lemma_lines_safe(name: Seq<char>, value: Seq<char>, attrs: Seq<char>)
    ensures
        header_safe(set_line(name, value, attrs)) == (header_safe(name) && header_safe(value)
            && header_safe(attrs)),
        header_safe(clear_line(name, attrs)) == (header_safe(name) && header_safe(attrs)),
{
    broadcast use lemma_header_safe_concat;

    reveal_strlit("=");
    reveal_strlit("; ");
    reveal_strlit("=; ");
    reveal_strlit("; Max-Age=0");
}

/// A decimal number is fit for a header.
pub proof fn lemma_decimal_safe(n: nat)
    ensures
        header_safe(decimal(n)),
{
    lemma_decimal(n);
    assert forall|i: int| 0 <= i < decimal(n).len() implies ((#[trigger] decimal(n)[i]) as u32 >= 32
        && decimal(n)[i] as u32 != 127 || decimal(n)[i] as u32 == 9) by {
        assert(is_digit(decimal(n)[i]));
    }
}

/// A text of the Base64 alphabet is fit for a header.
pub proof fn lemma_url_safe_is_header_safe(s: Seq<char>)
    requires
        url_safe(s),
    ensures
        header_safe(s),
{
    assert forall|i: int| 0 <= i < s.len() implies ((#[trigger] s[i]) as u32 >= 32 && s[i] as u32
        != 127 || s[i] as u32 == 9) by {
        assert(url_safe_char(s[i]));
    }
}

/// The lines of chunk `i` are fit for a header exactly where the name and the
/// attributes are.
proof fn lemma_chunk_lines_safe(name: Seq<char>, text: Seq<char>, attrs: Seq<char>, i: nat)
    requires
        url_safe(text),
        i < chunk_count(text.len()),
    ensures
        header_safe(set_line(chunk_name(name, i), chunk_value(text, i as int), attrs)) == (
        header_safe(name) && header_safe(attrs)),
{
    broadcast use lemma_header_safe_concat;

    reveal_strlit(".");
    reveal_strlit(":");
    lemma_decimal_safe(i);
    lemma_decimal_safe(chunk_count(text.len()));
    lemma_lines_safe(chunk_name(name, i), chunk_value(text, i as int), attrs);
    lemma_chunk_bounds(text, i as int);
    let part = chunk(text, i as int);
    assert(url_safe(part)) by {
        assert forall|j: int| 0 <= j < part.len() implies url_safe_char(
            #[trigger] part[j],
        ) by {
            assert(part[j] == text[i * CHUNK_SIZE + j]);
        }
    }
    lemma_url_safe_is_header_safe(part);
}

/// The clearing line of chunk `i` is fit for a header exactly where the name
/// and the attributes are.
proof fn lemma_clear_lines_safe(name: Seq<char>, attrs: Seq<char>, i: nat)
    ensures
        header_safe(clear_line(chunk_name(name, i), attrs)) == (header_safe(name) && header_safe(
            attrs,
        )),
{
    broadcast use lemma_header_safe_concat;

    reveal_strlit(".");
    lemma_decimal_safe(i);
    lemma_lines_safe(chunk_name(name, i), Seq::empty(), attrs);
}

/// Chunk `i` begins inside the text, and only the last chunk can be short.
proof fn lemma_chunk_bounds(text: Seq<char>, i: int)
    requires
        0 <= i < chunk_count(text.len()),
    ensures
        0 <= i * CHUNK_SIZE < text.len(),
        i + 1 < chunk_count(text.len()) ==> (i + 1) * CHUNK_SIZE < text.len(),
        i + 1 == chunk_count(text.len()) ==> text.len() <= (i + 1) * CHUNK_SIZE,
{
    let len = text.len() as int;
    assert(len == (len / 3800) * 3800 + len % 3800);
}

impl CookieSessionStore {
    /// The attributes of the session cookies.
    pub open spec fn attrs(&self) -> Seq<char> {
        attributes(self.secure, self.cookie_path@)
    }

    /// The cookies of this store are fit for a header.
    pub open spec fn writable(&self) -> bool {
        header_safe(self.cookie_name@) && header_safe(self.cookie_path@)
    }

    /// Creates a new cookie session store.
    ///
    /// - `cookie_name` — base name for the session cookies (e.g. `"huskarl_session"`)
    /// - `secure` — whether to set the `Secure` cookie attribute
    /// - `cookie_path` — the `Path` cookie attribute (e.g. `"/"`)
    pub fn new(cookie_name: String, secure: bool, cookie_path: String) -> (r: Self)
        ensures
            r.cookie_name == cookie_name,
            r.secure == secure,
            r.cookie_path == cookie_path,
    {
        CookieSessionStore { cookie_name, secure, cookie_path }
    }

    /// Makes the session for a completed login.
    pub fn create_session(completed: &CompletedLogin) -> (r: Result<CookieSession, SessionError>)
        ensures
            r is Ok == completed.response().raw is Ok,
            r matches Err(e) ==> e == SessionError::TokenResponse(completed.response().raw->Err_0),
            r matches Ok(s) ==> s.state() == initial_state(
                completed.response(),
                completed.response().raw->Ok_0,
                s.state().created_at,
            ),
    {
        match TokenState::from_completed(completed) {
            Ok(state) => Ok(CookieSession(state)),
            Err(e) => Err(e),
        }
    }

    /// The attribute string of the session cookies.
    fn cookie_attrs(&self) -> (r: String)
        ensures
            r@ == self.attrs(),
    {
        cookie_attrs(self.secure, self.cookie_path.as_str())
    }

    /// The name of the `i`-th session cookie.
    fn chunk_cookie(&self, i: usize) -> (r: String)
        ensures
            r@ == chunk_name(self.cookie_name@, i as nat),
    {
        let number = decimal_text(i);
        cat3(self.cookie_name.as_str(), ".", number.as_str())
    }

    /// Clears the chunks from `from` up to the largest number. A line that is
    /// no header value is left out.
    fn clear_chunks(&self, attrs: &str, from: usize, response: &mut pingora_http::ResponseHeader)
        requires
            from <= MAX_CHUNKS,
            attrs@ == self.attrs(),
            takes(*old(response), HeaderField::SetCookie),
        ensures
            takes(*final(response), HeaderField::SetCookie),
            only_new(*old(response), *final(response), HeaderField::SetCookie),
            self.writable() ==> head_of(*final(response)) == head_of(*old(response)).add_values(
                HeaderField::SetCookie,
                clear_lines(self.cookie_name@, self.attrs(), from as nat, MAX_CHUNKS as nat),
            ),
            !self.writable() ==> head_of(*final(response)) == head_of(*old(response)),
    {
        let ghost start = head_of(*response);
        let ghost all = clear_lines(
            self.cookie_name@,
            self.attrs(),
            from as nat,
            MAX_CHUNKS as nat,
        );
        proof {
            lemma_attributes_safe(self.secure, self.cookie_path@);
        }
        let mut i: usize = from;
        assert(start.add_values(HeaderField::SetCookie, all.take(0)) == start);
        while i < MAX_CHUNKS
            invariant
                from <= i <= MAX_CHUNKS,
                attrs@ == self.attrs(),
                header_safe(self.attrs()) == header_safe(self.cookie_path@),
                all == clear_lines(
                    self.cookie_name@,
                    self.attrs(),
                    from as nat,
                    MAX_CHUNKS as nat,
                ),
                takes(*response, HeaderField::SetCookie),
                only_new(*old(response), *response, HeaderField::SetCookie),
                self.writable() ==> head_of(*response) == start.add_values(
                    HeaderField::SetCookie,
                    all.take(i - from),
                ),
                !self.writable() ==> head_of(*response) == start,
            decreases MAX_CHUNKS - i,
        {
            let name = self.chunk_cookie(i);
            let line = clear_cookie_line(name.as_str(), attrs);
            proof {
                lemma_clear_lines_safe(self.cookie_name@, self.attrs(), i as nat);
                lemma_add_values_push(
                    start,
                    HeaderField::SetCookie,
                    all.take(i - from),
                    line@,
                );
                assert(all.take(i - from).push(line@) == all.take(i - from + 1));
            }
            let _ = add_value(response, HeaderField::SetCookie, line.as_str());
            i = i + 1;
        }
        assert(all.take(i - from) == all);
    }

    /// Clears the cookie with the bare name. A line that is no header value is
    /// left out.
    fn clear_base(&self, attrs: &str, response: &mut pingora_http::ResponseHeader)
        requires
            attrs@ == self.attrs(),
            takes(*old(response), HeaderField::SetCookie),
        ensures
            takes(*final(response), HeaderField::SetCookie),
            only_new(*old(response), *final(response), HeaderField::SetCookie),
            self.writable() ==> head_of(*final(response)) == head_of(*old(response)).add_value(
                HeaderField::SetCookie,
                clear_line(self.cookie_name@, self.attrs()),
            ),
            !self.writable() ==> head_of(*final(response)) == head_of(*old(response)),
    {
        let line = clear_cookie_line(self.cookie_name.as_str(), attrs);
        proof {
            lemma_attributes_safe(self.secure, self.cookie_path@);
            lemma_lines_safe(self.cookie_name@, Seq::empty(), self.attrs());
        }
        let _ = add_value(response, HeaderField::SetCookie, line.as_str());
    }

    /// Removes the session from the browser: clears the bare name and every
    /// chunk.
    pub fn delete_session(&self, response: &mut pingora_http::ResponseHeader) -> (r: Result<
        (),
        SessionError,
    >)
        requires
            response_names(*old(response)) < MAX_HEADER_NAMES,
        ensures
            response_names(*final(response)) <= response_names(*old(response)) + 1,
            r is Ok,
            self.writable() ==> head_of(*final(response)) == head_of(*old(response)).add_values(
                HeaderField::SetCookie,
                removal_lines(self.cookie_name@, self.attrs()),
            ),
            !self.writable() ==> head_of(*final(response)) == head_of(*old(response)),
    {
        let attrs = self.cookie_attrs();
        let ghost start = head_of(*response);
        self.clear_base(attrs.as_str(), response);
        let ghost middle = head_of(*response);
        self.clear_chunks(attrs.as_str(), 0, response);
        proof {
            let base = clear_line(self.cookie_name@, self.attrs());
            let rest = clear_lines(self.cookie_name@, self.attrs(), 0, MAX_CHUNKS as nat);
            lemma_add_then_add(start, HeaderField::SetCookie, base, rest);
        }
        Ok(())
    }

    /// Writes a sealed session to the response, as chunked cookies.
    ///
    /// Fails where it needs more than the largest number of chunks, or where a
    /// chunk cannot be written; the response is then unchanged. Chunks that a
    /// larger session may have left are cleared, and so is the bare name.
    pub fn save_bundle(&self, bundle: &Vec<u8>, response: &mut pingora_http::ResponseHeader) -> (r:
        Result<(), SessionError>)
        requires
            response_names(*old(response)) < MAX_HEADER_NAMES,
        ensures
            response_names(*final(response)) <= response_names(*old(response)) + 1,
            ({
                let text = base64_text(bundle@);
                let n = chunk_count(text.len());
                &&& r is Ok <==> n <= MAX_CHUNKS && (self.writable() || n == 0)
                &&& n > MAX_CHUNKS ==> (r matches Err(SessionError::TooLarge { chunks }) && chunks
                    == n)
                &&& n <= MAX_CHUNKS && r is Err ==> r->Err_0.text() == bad_append_text()
                &&& r is Ok && self.writable() ==> head_of(*final(response)) == head_of(
                    *old(response),
                ).add_values(
                    HeaderField::SetCookie,
                    saved_lines(self.cookie_name@, text, self.attrs()),
                )
                &&& r is Err || !self.writable() ==> head_of(*final(response)) == head_of(
                    *old(response),
                )
                // What was written is read back from the cookies sent in return.
                &&& r is Ok && n > 0 ==> forall|jars: Seq<Seq<Pair>>|
                    each_fits(jars) && carries_session(all_of(jars), self.cookie_name@, text)
                        ==> #[trigger] stored_bundle(received(jars), self.cookie_name@) == Some(
                        bundle@,
                    )
            }),
    {
        let encoded = encode_value(bundle);
        let chars = chars_of(encoded.as_str());
        let len: usize = chars.len();
        let num_chunks: usize = len / CHUNK_SIZE + if len % CHUNK_SIZE == 0 {
            0
        } else {
            1
        };
        if num_chunks > MAX_CHUNKS {
            return Err(SessionError::TooLarge { chunks: num_chunks });
        }
        let attrs = self.cookie_attrs();
        let ghost start = head_of(*response);
        let ghost lines = chunk_lines(
            self.cookie_name@,
            encoded@,
            self.attrs(),
            num_chunks as nat,
        );
        proof {
            lemma_attributes_safe(self.secure, self.cookie_path@);
            if num_chunks > 0 {
                assert forall|jars: Seq<Seq<Pair>>|
                    each_fits(jars) && carries_session(
                        all_of(jars),
                        self.cookie_name@,
                        encoded@,
                    ) implies #[trigger] stored_bundle(received(jars), self.cookie_name@) == Some(
                    bundle@,
                ) by {
                    law_saved_session_loads(jars, self.cookie_name@, encoded@, bundle@);
                }
            }
        }
        let mut i: usize = 0;
        assert(start.add_values(HeaderField::SetCookie, lines.take(0)) == start);
        while i < num_chunks
            invariant
                0 <= i <= num_chunks <= MAX_CHUNKS,
                num_chunks == chunk_count(encoded@.len()),
                chars@ == encoded@,
                len == chars@.len(),
                url_safe(encoded@),
                encoded@ == base64_text(bundle@),
                start == head_of(*old(response)),
                attrs@ == self.attrs(),
                header_safe(self.attrs()) == header_safe(self.cookie_path@),
                lines == chunk_lines(
                    self.cookie_name@,
                    encoded@,
                    self.attrs(),
                    num_chunks as nat,
                ),
                response_names(*old(response)) < MAX_HEADER_NAMES,
                takes(*response, HeaderField::SetCookie),
                only_new(*old(response), *response, HeaderField::SetCookie),
                i > 0 ==> self.writable(),
                head_of(*response) == start.add_values(
                    HeaderField::SetCookie,
                    lines.take(i as int),
                ),
            decreases num_chunks - i,
        {
            proof {
                lemma_chunk_bounds(encoded@, i as int);
                lemma_chunk_lines_safe(self.cookie_name@, encoded@, self.attrs(), i as nat);
            }
            let lo: usize = i * CHUNK_SIZE;
            let hi: usize = if i + 1 == num_chunks {
                len
            } else {
                lo + CHUNK_SIZE
            };
            let part = string_of(&chars, lo, hi);
            assert(part@ == chunk(encoded@, i as int));
            let value = if i == 0 {
                let count = decimal_text(num_chunks);
                cat3(count.as_str(), ":", part.as_str())
            } else {
                part
            };
            let name = self.chunk_cookie(i);
            let line = set_cookie_line(name.as_str(), value.as_str(), attrs.as_str());
            assert(line@ == lines[i as int]);
            proof {
                lemma_add_values_push(
                    start,
                    HeaderField::SetCookie,
                    lines.take(i as int),
                    line@,
                );
                assert(lines.take(i as int).push(line@) == lines.take(i + 1));
            }
            match add_value(
                response,
                HeaderField::SetCookie,
                line.as_str(),
            ) {
                Ok(()) => {},
                Err(e) => {
                    return Err(SessionError::Header(e));
                },
            }
            i = i + 1;
        }
        assert(lines.take(i as int) == lines);
        self.clear_chunks(attrs.as_str(), num_chunks, response);
        let ghost middle = head_of(*response);
        self.clear_base(attrs.as_str(), response);
        proof {
            let cleared = clear_lines(
                self.cookie_name@,
                self.attrs(),
                num_chunks as nat,
                MAX_CHUNKS as nat,
            );
            let base = clear_line(self.cookie_name@, self.attrs());
            if self.writable() {
                lemma_add_values_twice(start, HeaderField::SetCookie, lines, cleared);
                lemma_add_values_push(start, HeaderField::SetCookie, lines + cleared, base);
                assert((lines + cleared).push(base) == lines + cleared + seq![base]);
            }
        }
        Ok(())
    }
}

/// The number of the chunk that a cookie name stands for.
fn read_chunk_number(key: &str, name: &str) -> (r: Option<usize>)
    ensures
        match r {
            Some(n) => chunk_number(key@, name@) == Some(n as nat),
            None => chunk_number(key@, name@) is None,
        },
{
    match strip_text(key, name) {
        Some(suffix) => match strip_text(suffix.as_str(), ".") {
            Some(digits) => parse_number(digits.as_str()),
            None => None,
        },
        None => None,
    }
}

/// The value of the last cookie that holds the `i`-th chunk.
fn find_chunk(all: &Vec<(String, String)>, name: &str, i: usize) -> (r: Option<String>)
    ensures
        opt_text(r) == chunk_in(pairs(all@), name@, i as nat),
{
    let ghost model = pairs(all@);
    let mut j: usize = all.len();
    assert(model.take(j as int) == model);
    while j > 0
        invariant
            j <= all@.len(),
            model == pairs(all@),
            chunk_in(model, name@, i as nat) == chunk_in(model.take(j as int), name@, i as nat),
        decreases j,
    {
        let ghost part = model.take(j as int);
        assert(part.last() == (all@[j - 1].0@, all@[j - 1].1@));
        assert(part.drop_last() == model.take(j - 1));
        match read_chunk_number(all[j - 1].0.as_str(), name) {
            Some(n) => {
                if n == i {
                    return Some(all[j - 1].1.clone());
                }
            },
            None => {},
        }
        j = j - 1;
    }
    None
}

impl CookieSessionStore {
    /// Reads the sealed session from the cookies of a request.
    ///
    /// There is none where the first chunk is missing or does not announce the
    /// number of chunks, where another chunk is missing, or where the data is
    /// not Base64 text.
    pub fn load_bundle(&self, headers: &http::HeaderMap) -> (r: Option<Vec<u8>>)
        ensures
            match r {
                Some(b) => stored_bundle(request_cookies(*headers), self.cookie_name@) == Some(b@),
                None => stored_bundle(request_cookies(*headers), self.cookie_name@) is None,
            },
    {
        let all = cookies(headers);
        let ghost model = pairs(all@);
        let name = self.cookie_name.as_str();
        let first = match find_chunk(&all, name, 0) {
            Some(v) => v,
            None => return None,
        };
        let (count_text, data) = match split_first(first.as_str(), ':') {
            Some(parts) => parts,
            None => return None,
        };
        let count: usize = match parse_number(count_text.as_str()) {
            Some(n) => n,
            None => return None,
        };
        let mut raw = data;
        let mut i: usize = 1;
        let ghost start = raw@;
        while i < count
            invariant
                1 <= i,
                i <= count || count == 0,
                model == pairs(all@),
                name@ == self.cookie_name@,
                model == request_cookies(*headers),
                match gathered(model, name@, 1, count as nat) {
                    Some(rest) => {
                        &&& gathered(model, name@, i as nat, count as nat) is Some
                        &&& start + rest == raw@ + gathered(
                            model,
                            name@,
                            i as nat,
                            count as nat,
                        )->0
                    },
                    None => gathered(model, name@, i as nat, count as nat) is None,
                },
                stored_text(model, name@) == match gathered(model, name@, 1, count as nat) {
                    Some(rest) => Some(start + rest),
                    None => None,
                },
            decreases count - i,
        {
            match find_chunk(&all, name, i) {
                Some(v) => {
                    proof {
                        let so_far = raw@;
                        match gathered(model, name@, (i + 1) as nat, count as nat) {
                            Some(more) => {
                                assert(so_far + (v@ + more) == so_far + v@ + more);
                            },
                            None => {},
                        }
                    }
                    raw.append(v.as_str());
                },
                None => return None,
            }
            i = i + 1;
        }
        assert(raw@ + Seq::<char>::empty() == raw@);
        decode_value(raw.as_str())
    }
}

/// Adding one value and then more adds them all.
proof fn lemma_add_then_add(
    head: Head,
    field: HeaderField,
    value: Seq<char>,
    values: Seq<Seq<char>>,
)
    ensures
        head.add_value(field, value).add_values(field, values) == head.add_values(
            field,
            seq![value] + values,
        ),
{
    lemma_add_values_push(head, field, Seq::empty(), value);
    assert(Seq::<Seq<char>>::empty().push(value) == seq![value]);
    lemma_add_values_twice(head, field, seq![value], values);
}

/// Adding values in two steps adds them all.
proof fn lemma_add_values_twice(
    head: Head,
    field: HeaderField,
    a: Seq<Seq<char>>,
    b: Seq<Seq<char>>,
)
    ensures
        head.add_values(field, a).add_values(field, b) == head.add_values(field, a + b),
{
    let first = head.add_values(field, a);
    if a.len() == 0 {
        assert(a + b == b);
    } else if b.len() == 0 {
        assert(a + b == a);
    } else {
        let before = head.values(field);
        assert(encoded(a) + encoded(b) == encoded(a + b));
        assert(first.values(field) == before + encoded(a));
        assert(before + encoded(a) + encoded(b) == before + encoded(a + b));
        assert(first.fields.insert(field.key(), before + encoded(a) + encoded(b))
            == head.fields.insert(field.key(), before + encoded(a + b)));
    }
}

// ── What is saved is loaded ──────────────────────────────────────────────────

/// A base name under which the cookies of a session come back: visible ASCII,
/// spaces and tabs, without `;` and `=`, that does not begin with white space.
pub open spec fn session_cookie_name(name: Seq<char>) -> bool {
    &&& visible(name)
    &&& !name.contains(';')
    &&& !name.contains('=')
    &&& name.len() > 0 ==> !is_space(name[0])
}

/// The cookies that saving a text sets.
pub open spec fn session_cookies(name: Seq<char>, text: Seq<char>) -> Seq<Pair> {
    Seq::new(
        chunk_count(text.len()),
        |i: int| (chunk_name(name, i as nat), chunk_value(text, i)),
    )
}

/// The name of a session cookie gives back the number of its chunk.
proof fn lemma_chunk_number(name: Seq<char>, i: nat)
    requires
        i <= usize::MAX,
    ensures
        chunk_number(chunk_name(name, i), name) == Some(i),
{
    reveal_strlit(".");
    let key = chunk_name(name, i);
    assert(key.subrange(0, name.len() as int) == name);
    let suffix = key.subrange(name.len() as int, key.len() as int);
    assert(suffix == "."@ + decimal(i));
    assert(suffix.subrange(0, 1) == "."@);
    assert(suffix.subrange(1, suffix.len() as int) == decimal(i));
    lemma_number_of_decimal(i);
}

/// A jar carries the session that `text` holds: each of its cookies is there,
/// and no cookie stands for one of its chunks with another value.
pub open spec fn carries_session(jar: Seq<Pair>, name: Seq<char>, text: Seq<char>) -> bool {
    &&& forall|i: int|
        0 <= i < chunk_count(text.len()) ==> jar.contains(#[trigger] session_cookies(name, text)[i])
    &&& forall|i: int, j: int|
        0 <= i < chunk_count(text.len()) && 0 <= j < jar.len() && chunk_number(
            (#[trigger] jar[j]).0,
            name,
        ) == Some(i as nat) ==> jar[j].1 == (#[trigger] session_cookies(name, text)[i]).1
}

/// A chunk is found where the jar holds it, and with no other value.
proof fn lemma_chunk_in(jar: Seq<Pair>, name: Seq<char>, i: nat, value: Seq<char>)
    requires
        exists|j: int| 0 <= j < jar.len() && chunk_number((#[trigger] jar[j]).0, name) == Some(i),
        forall|j: int|
            0 <= j < jar.len() && chunk_number((#[trigger] jar[j]).0, name) == Some(i) ==> jar[j].1
                == value,
    ensures
        chunk_in(jar, name, i) == Some(value),
    decreases jar.len(),
{
    let rest = jar.drop_last();
    if chunk_number(jar.last().0, name) != Some(i) {
        let j = choose|j: int|
            0 <= j < jar.len() && chunk_number((#[trigger] jar[j]).0, name) == Some(i);
        assert(rest[j] == jar[j]);
        assert forall|k: int|
            0 <= k < rest.len() && chunk_number((#[trigger] rest[k]).0, name) == Some(
                i,
            ) implies rest[k].1 == value by {
            assert(rest[k] == jar[k]);
        }
        lemma_chunk_in(rest, name, i, value);
    }
}

/// In a jar that carries a session, each of its chunks is found.
proof fn lemma_carried_chunk(jar: Seq<Pair>, name: Seq<char>, text: Seq<char>, i: nat)
    requires
        carries_session(jar, name, text),
        i < chunk_count(text.len()) <= MAX_CHUNKS,
    ensures
        chunk_in(jar, name, i) == Some(chunk_value(text, i as int)),
{
    let p = session_cookies(name, text)[i as int];
    assert(jar.contains(p));
    let j = choose|j: int| 0 <= j < jar.len() && jar[j] == p;
    lemma_chunk_number(name, i);
    assert(chunk_number(jar[j].0, name) == Some(i));
    assert forall|k: int|
        0 <= k < jar.len() && chunk_number((#[trigger] jar[k]).0, name) == Some(i) implies jar[k].1
        == chunk_value(text, i as int) by {
        assert(jar[k].1 == session_cookies(name, text)[i as int].1);
    }
    lemma_chunk_in(jar, name, i, chunk_value(text, i as int));
}

/// What is left of a text from chunk `i` on.
spec fn tail(text: Seq<char>, i: int) -> Seq<char> {
    if i < chunk_count(text.len()) {
        text.subrange(i * CHUNK_SIZE, text.len() as int)
    } else {
        Seq::empty()
    }
}

/// In a jar that carries a session, the cookies from chunk `i` on hold the rest
/// of the text.
proof fn lemma_gathered(jar: Seq<Pair>, name: Seq<char>, text: Seq<char>, i: nat)
    requires
        carries_session(jar, name, text),
        1 <= i <= chunk_count(text.len()) <= MAX_CHUNKS,
    ensures
        gathered(jar, name, i, chunk_count(text.len())) == Some(tail(text, i as int)),
    decreases chunk_count(text.len()) - i,
{
    let n = chunk_count(text.len());
    if i < n {
        lemma_gathered(jar, name, text, i + 1);
        lemma_carried_chunk(jar, name, text, i);
        lemma_chunk_bounds(text, i as int);
        if i + 1 < n {
            lemma_chunk_bounds(text, i as int + 1);
        }
        assert(chunk(text, i as int) + tail(text, i as int + 1) == tail(text, i as int));
    }
}

/// A jar that carries a session holds the text that was saved.
proof fn lemma_stored_text(jar: Seq<Pair>, name: Seq<char>, text: Seq<char>)
    requires
        carries_session(jar, name, text),
        1 <= chunk_count(text.len()) <= MAX_CHUNKS,
    ensures
        stored_text(jar, name) == Some(text),
{
    reveal_strlit(":");
    let n = chunk_count(text.len());
    lemma_carried_chunk(jar, name, text, 0);
    let first = chunk_value(text, 0);
    let count = decimal(n);
    lemma_decimal(n);
    let k = count.len() as int;
    assert(first[k] == ':');
    assert forall|j: int| 0 <= j < k implies first[j] != ':' by {
        assert(first[j] == count[j]);
        assert(is_digit(count[j]));
    }
    lemma_find_is(first, ':', k);
    assert(first.subrange(0, k) == count);
    assert(first.subrange(k + 1, first.len() as int) == chunk(text, 0));
    lemma_number_of_decimal(n);
    lemma_gathered(jar, name, text, 1);
    lemma_chunk_bounds(text, 0);
    if 1 < n {
        lemma_chunk_bounds(text, 1);
    }
    assert(chunk(text, 0) + tail(text, 1) == text);
}

/// Every character of `s` is a printable character other than space, `;`
/// and `=`.
spec fn plain(s: Seq<char>) -> bool {
    forall|i: int|
        0 <= i < s.len() ==> 33 <= (#[trigger] s[i]) as u32 && (s[i] as u32) < 127 && s[i] != ';'
            && s[i] != '='
}

proof fn lemma_plain_concat(a: Seq<char>, b: Seq<char>)
    requires
        plain(a),
        plain(b),
    ensures
        plain(a + b),
{
    let s = a + b;
    assert forall|i: int| 0 <= i < s.len() implies 33 <= (#[trigger] s[i]) as u32 && (s[i] as u32)
        < 127 && s[i] != ';' && s[i] != '=' by {
        if i < a.len() {
            assert(s[i] == a[i]);
        } else {
            assert(s[i] == b[i - a.len()]);
        }
    }
}

proof fn lemma_plain_decimal(n: nat)
    ensures
        plain(decimal(n)),
{
    lemma_decimal(n);
    let s = decimal(n);
    assert forall|i: int| 0 <= i < s.len() implies 33 <= (#[trigger] s[i]) as u32 && (s[i] as u32)
        < 127 && s[i] != ';' && s[i] != '=' by {
        assert(is_digit(s[i]));
    }
}

/// The value of a session cookie is plain.
proof fn lemma_plain_value(text: Seq<char>, i: int)
    requires
        url_safe(text),
        0 <= i < chunk_count(text.len()),
    ensures
        plain(chunk_value(text, i)),
{
    lemma_chunk_bounds(text, i);
    let part = chunk(text, i);
    assert forall|j: int| 0 <= j < part.len() implies 33 <= (#[trigger] part[j]) as u32 && (
    part[j] as u32) < 127 && part[j] != ';' && part[j] != '=' by {
        assert(part[j] == text[i * CHUNK_SIZE + j]);
        assert(url_safe_char(text[i * CHUNK_SIZE + j]));
    }
    if i == 0 {
        reveal_strlit(":");
        let count = decimal(chunk_count(text.len()));
        lemma_plain_decimal(chunk_count(text.len()));
        assert(plain(":"@));
        lemma_plain_concat(count, ":"@);
        lemma_plain_concat(count + ":"@, part);
    }
}

/// The cookies of a session have proper names and values.
proof fn lemma_session_cookies_proper(name: Seq<char>, text: Seq<char>)
    requires
        session_cookie_name(name),
        url_safe(text),
    ensures
        proper(session_cookies(name, text)),
        forall|i: int|
            0 <= i < chunk_count(text.len()) ==> visible(
                cookie_text(#[trigger] session_cookies(name, text)[i]),
            ),
{
    reveal_strlit(".");
    reveal_strlit("=");
    let all = session_cookies(name, text);
    assert forall|i: int| 0 <= i < all.len() implies cookie_name(
        (#[trigger] all[i]).0,
    ) && cookie_value(all[i].1) && visible(
        cookie_text(all[i]),
    ) by {
        let key = all[i].0;
        let value = all[i].1;
        let digits = decimal(i as nat);
        lemma_plain_decimal(i as nat);
        lemma_decimal(i as nat);
        lemma_plain_value(text, i);
        assert forall|j: int| 0 <= j < key.len() implies visible_char(#[trigger] key[j]) && key[j]
            != ';' && key[j] != '=' by {
            if j < name.len() {
                assert(key[j] == name[j]);
                assert(name.contains(name[j]));
            } else if j > name.len() {
                assert(key[j] == digits[j - name.len() - 1]);
            }
        }
        assert(key.last() == digits.last());
        assert(!is_space(key.last()));
        assert(!is_space(key[0])) by {
            if name.len() > 0 {
                assert(key[0] == name[0]);
            } else {
                assert(key[0] == '.');
            }
        }
        let t = cookie_text(all[i]);
        assert forall|j: int| 0 <= j < t.len() implies visible_char(#[trigger] t[j]) by {
            if j < key.len() {
                assert(t[j] == key[j]);
            } else if j > key.len() {
                assert(t[j] == value[j - key.len() - 1]);
            }
        }
    }
}

/// A cookie line is visible where its cookies are.
pub proof fn lemma_line_visible(cookies: Seq<Pair>)
    requires
        forall|i: int|
            0 <= i < cookies.len() ==> visible(
                cookie_text(#[trigger] cookies[i]),
            ),
    ensures
        visible(cookie_line(cookies)),
    decreases cookies.len(),
{
    reveal_strlit("; ");
    if cookies.len() == 1 {
        assert(visible(cookie_text(cookies[0])));
    } else if cookies.len() > 1 {
        let rest = cookies.subrange(1, cookies.len() as int);
        assert forall|i: int| 0 <= i < rest.len() implies visible(
            cookie_text(#[trigger] rest[i]),
        ) by {
            assert(rest[i] == cookies[i + 1]);
        }
        lemma_line_visible(rest);
        let first = cookie_text(cookies[0]);
        assert(visible(first));
        let more = cookie_line(rest);
        let line = cookie_line(cookies);
        assert(line == first + "; "@ + more);
        assert forall|j: int| 0 <= j < line.len() implies visible_char(#[trigger] line[j]) by {
            if j < first.len() {
                assert(line[j] == first[j]);
            } else if j >= first.len() + 2 {
                assert(line[j] == more[j - first.len() - 2]);
            }
        }
    }
}

/// A session that was saved is loaded: where a browser sends back the cookies
/// that saving `text` set, in whatever order, over however many `Cookie` headers
/// and among whatever others, they hold the bundle that `text` encodes.
pub proof fn law_saved_session_loads(
    jars: Seq<Seq<Pair>>,
    name: Seq<char>,
    text: Seq<char>,
    bundle: Seq<u8>,
)
    requires
        each_fits(jars),
        carries_session(all_of(jars), name, text),
        base64_bytes(text) == Some(bundle),
        1 <= chunk_count(text.len()) <= MAX_CHUNKS,
    ensures
        stored_bundle(received(jars), name) == Some(bundle),
{
    law_cookies_round_trip(jars);
    lemma_stored_text(all_of(jars), name, text);
}

/// The jars hold the cookies of a session and no others, in whatever order.
pub open spec fn only_session(jars: Seq<Seq<Pair>>, name: Seq<char>, text: Seq<char>) -> bool {
    forall|p: Pair| #[trigger]
        all_of(jars).contains(p) <==> session_cookies(name, text).contains(p)
}

/// The cookies of a session can be sent back, over however many `Cookie`
/// headers and in whatever order.
pub proof fn law_session_cookies_can_be_sent(
    jars: Seq<Seq<Pair>>,
    name: Seq<char>,
    text: Seq<char>,
)
    requires
        session_cookie_name(name),
        url_safe(text),
        chunk_count(text.len()) <= MAX_CHUNKS,
        only_session(jars, name, text),
    ensures
        each_fits(jars),
        carries_session(all_of(jars), name, text),
{
    let all = session_cookies(name, text);
    let jar = all_of(jars);
    lemma_session_cookies_proper(name, text);
    assert forall|k: int| 0 <= k < jars.len() implies one_header(#[trigger] jars[k]) by {
        let one = jars[k];
        assert forall|i: int| 0 <= i < one.len() implies all.contains(#[trigger] one[i]) by {
            assert(jars[k].contains(one[i]));
            lemma_all_of_contains(jars, one[i]);
            assert(jar.contains(one[i]));
        }
        lemma_line_visible(one);
    }
    assert forall|i: int| 0 <= i < chunk_count(text.len()) implies jar.contains(
        #[trigger] all[i],
    ) by {
        assert(all.contains(all[i]));
    }
    assert forall|i: int, j: int|
        0 <= i < chunk_count(text.len()) && 0 <= j < jar.len() && chunk_number(
            (#[trigger] jar[j]).0,
            name,
        ) == Some(i as nat) implies jar[j].1 == (#[trigger] all[i]).1 by {
        assert(jar.contains(jar[j]));
        let k = choose|k: int| 0 <= k < all.len() && all[k] == jar[j];
        lemma_chunk_number(name, k as nat);
    }
}

/// What was saved is loaded from the cookies that saving it set: where they
/// come back, in whatever order and over however many `Cookie` headers, they
/// hold the sealed session.
pub proof fn law_session_loads_from_its_cookies(
    jars: Seq<Seq<Pair>>,
    name: Seq<char>,
    text: Seq<char>,
    bundle: Seq<u8>,
)
    requires
        session_cookie_name(name),
        url_safe(text),
        base64_bytes(text) == Some(bundle),
        1 <= chunk_count(text.len()) <= MAX_CHUNKS,
        only_session(jars, name, text),
    ensures
        stored_bundle(received(jars), name) == Some(bundle),
{
    law_session_cookies_can_be_sent(jars, name, text);
    law_saved_session_loads(jars, name, text, bundle);
}

/// A session comes back as it was saved. Where the cookies that saving its
/// sealed form set are sent back, and the sealed form opens to the stored form
/// of its state, the session that is loaded has that state, its times cut to
/// whole seconds.
pub proof fn law_session_comes_back(
    jars: Seq<Seq<Pair>>,
    name: Seq<char>,
    text: Seq<char>,
    bundle: Seq<u8>,
    state: TokenState,
    opened: StoredState,
)
    requires
        session_cookie_name(name),
        url_safe(text),
        base64_bytes(text) == Some(bundle),
        1 <= chunk_count(text.len()) <= MAX_CHUNKS,
        only_session(jars, name, text),
        state.storable(),
        state.since_epoch(),
        opened == stored_state(state),
    ensures
        stored_bundle(received(jars), name) == Some(bundle),
        CookieSession(loaded_state(opened)).state() == state.in_whole_seconds(),
{
    law_session_loads_from_its_cookies(jars, name, text, bundle);
    law_stored_state_loads(state);
}

/// The lines that store a text set the cookies of the session, and clear every
/// other cookie that a session may have.
pub proof fn law_saved_lines_set_the_session_cookies(
    name: Seq<char>,
    text: Seq<char>,
    attrs: Seq<char>,
)
    requires
        chunk_count(text.len()) <= MAX_CHUNKS,
    ensures
        saved_lines(name, text, attrs).len() == MAX_CHUNKS + 1,
        forall|i: int|
            0 <= i <= MAX_CHUNKS ==> #[trigger] saved_lines(name, text, attrs)[i] == if i
                < chunk_count(text.len()) {
                set_line(
                    session_cookies(name, text)[i].0,
                    session_cookies(name, text)[i].1,
                    attrs,
                )
            } else if i < MAX_CHUNKS {
                clear_line(chunk_name(name, i as nat), attrs)
            } else {
                clear_line(name, attrs)
            },
{
}

// ── What is written ──────────────────────────────────────────────────────────

/// The `Set-Cookie` lines of a session cookie: one sets it, with its attributes
/// behind it, and the other empties it and lets it expire at once.
pub proof fn law_cookie_lines(name: &str, value: &str, attrs: &str, set: String, cleared: String)
    requires
        call_ensures(set_cookie_line, (name, value, attrs), set),
        call_ensures(clear_cookie_line, (name, attrs), cleared),
    ensures
        set@ == name@ + "="@ + value@ + "; "@ + attrs@,
        cleared@ == name@ + "=; "@ + attrs@ + "; Max-Age=0"@,
{
}

/// A text of more than `n - 1` and at most `n` times 3800 characters takes `n`
/// cookies.
proof fn lemma_chunk_count(len: nat, n: nat)
    requires
        len <= n * 3800,
        n > 0 ==> (n - 1) * 3800 < len,
    ensures
        chunk_count(len) == n,
{
    assert(len == (len / 3800) * 3800 + len % 3800);
}

/// What a session is written as: the Base64 text of the sealed session in parts
/// of 3800 characters, each in a cookie whose name ends with the number of the
/// part, the first one with the number of parts and a colon in front. The cookies
/// of further parts, up to ten, and the one with the bare name are emptied. They
/// are added to those that the response sets already, and nothing else of it
/// changes.
#[verifier::rlimit(30)]
pub proof fn law_saved_session_is_in_its_cookies(
    store: &CookieSessionStore,
    bundle: &Vec<u8>,
    n: nat,
    response: &mut pingora_http::ResponseHeader,
    r: Result<(), SessionError>,
)
    requires
        call_ensures(CookieSessionStore::save_bundle, (store, bundle, response), r),
        base64_text(bundle@).len() <= n * 3800,
        n > 0 ==> (n - 1) * 3800 < base64_text(bundle@).len(),
    ensures
        r is Ok <==> n <= 10 && (n == 0 || header_safe(store.cookie_name@) && header_safe(
            store.cookie_path@,
        )),
        n > 10 ==> r is Err && r->Err_0 is TooLarge && r->Err_0->chunks == n,
        n <= 10 && r is Err ==> r->Err_0.text()
            == " InvalidHTTPHeader context: invalid value while append"@,
        response_status(*final(response)) == response_status(*old(response)),
        r is Err ==> response_fields(*final(response)) == response_fields(*old(response)),
        r is Ok && n > 0 ==> ({
            let text = base64_text(bundle@);
            let name = store.cookie_name@;
            let attrs = "HttpOnly; SameSite=Lax; Path="@ + store.cookie_path@ + if store.secure {
                "; Secure"@
            } else {
                ""@
            };
            response_fields(*final(response)) == response_fields(*old(response)).insert(
                "set-cookie"@,
                already_set(*old(response)) + Seq::new(
                    11,
                    |i: int|
                        vstd::utf8::encode_utf8(
                            if i < n {
                                name + "."@ + decimal(i as nat) + "="@ + (if i == 0 {
                                    decimal(n) + ":"@
                                } else {
                                    Seq::empty()
                                }) + text.subrange(
                                    i * 3800,
                                    if (i + 1) * 3800 < text.len() {
                                        (i + 1) * 3800
                                    } else {
                                        text.len() as int
                                    },
                                ) + "; "@ + attrs
                            } else if i < 10 {
                                name + "."@ + decimal(i as nat) + "=; "@ + attrs + "; Max-Age=0"@
                            } else {
                                name + "=; "@ + attrs + "; Max-Age=0"@
                            },
                        ),
                ),
            )
        }),
{
    let text = base64_text(bundle@);
    let name = store.cookie_name@;
    let attrs = "HttpOnly; SameSite=Lax; Path="@ + store.cookie_path@ + if store.secure {
        "; Secure"@
    } else {
        ""@
    };
    lemma_chunk_count(text.len(), n);
    let before = head_of(*old(response));
    let after = head_of(*final(response));
    assert(before.status == response_status(*old(response)) && before.fields == response_fields(
        *old(response),
    ));
    assert(after.status == response_status(*final(response)) && after.fields == response_fields(
        *final(response),
    ));
    if r is Ok && n > 0 {
        let lines = saved_lines(name, text, attrs);
        law_saved_lines_set_the_session_cookies(name, text, attrs);
        let sent = Seq::new(
            11,
            |i: int|
                vstd::utf8::encode_utf8(
                    if i < n {
                        name + "."@ + decimal(i as nat) + "="@ + (if i == 0 {
                            decimal(n) + ":"@
                        } else {
                            Seq::empty()
                        }) + text.subrange(
                            i * 3800,
                            if (i + 1) * 3800 < text.len() {
                                (i + 1) * 3800
                            } else {
                                text.len() as int
                            },
                        ) + "; "@ + attrs
                    } else if i < 10 {
                        name + "."@ + decimal(i as nat) + "=; "@ + attrs + "; Max-Age=0"@
                    } else {
                        name + "=; "@ + attrs + "; Max-Age=0"@
                    },
                ),
        );
        assert(encoded(lines) == sent) by {
            assert(encoded(lines).len() == 11);
            assert forall|i: int| 0 <= i < 11 implies #[trigger] encoded(lines)[i] == sent[i] by {
                assert(encoded(lines)[i] == vstd::utf8::encode_utf8(lines[i]));
                if i < n {
                    let part = chunk(text, i);
                    let lead = if i == 0 {
                        decimal(n) + ":"@
                    } else {
                        Seq::empty()
                    };
                    assert(chunk_value(text, i) == lead + part);
                    assert(lines[i] == name + "."@ + decimal(i as nat) + "="@ + lead + part + "; "@
                        + attrs);
                }
            }
        }
        assert(already_set(*old(response)) == before.values(HeaderField::SetCookie));
    }
}

/// The cookies that a response sets.
pub open spec fn already_set(response: pingora_http::ResponseHeader) -> Seq<Seq<u8>> {
    if response_fields(response).dom().contains("set-cookie"@) {
        response_fields(response)["set-cookie"@]
    } else {
        Seq::empty()
    }
}

/// A session is removed by emptying the cookie with the bare name and those of all
/// ten parts; nothing else of the response changes, and nothing at all where the
/// name or the path is not fit for a header.
#[verifier::rlimit(30)]
pub proof fn law_deleted_session_is_cleared(
    store: &CookieSessionStore,
    response: &mut pingora_http::ResponseHeader,
    r: Result<(), SessionError>,
)
    requires
        call_ensures(CookieSessionStore::delete_session, (store, response), r),
    ensures
        r is Ok,
        response_status(*final(response)) == response_status(*old(response)),
        !(header_safe(store.cookie_name@) && header_safe(store.cookie_path@)) ==> response_fields(
            *final(response),
        ) == response_fields(*old(response)),
        header_safe(store.cookie_name@) && header_safe(store.cookie_path@) ==> ({
            let name = store.cookie_name@;
            let attrs = "HttpOnly; SameSite=Lax; Path="@ + store.cookie_path@ + if store.secure {
                "; Secure"@
            } else {
                ""@
            };
            response_fields(*final(response)) == response_fields(*old(response)).insert(
                "set-cookie"@,
                already_set(*old(response)) + Seq::new(
                    11,
                    |i: int|
                        vstd::utf8::encode_utf8(
                            name + (if i == 0 {
                                Seq::empty()
                            } else {
                                "."@ + decimal((i - 1) as nat)
                            }) + "=; "@ + attrs + "; Max-Age=0"@,
                        ),
                ),
            )
        }),
{
    let name = store.cookie_name@;
    let attrs = "HttpOnly; SameSite=Lax; Path="@ + store.cookie_path@ + if store.secure {
        "; Secure"@
    } else {
        ""@
    };
    let before = head_of(*old(response));
    let after = head_of(*final(response));
    assert(before.status == response_status(*old(response)) && before.fields == response_fields(
        *old(response),
    ));
    assert(after.status == response_status(*final(response)) && after.fields == response_fields(
        *final(response),
    ));
    if store.writable() {
        let lines = removal_lines(name, attrs);
        let sent = Seq::new(
            11,
            |i: int|
                vstd::utf8::encode_utf8(
                    name + (if i == 0 {
                        Seq::empty()
                    } else {
                        "."@ + decimal((i - 1) as nat)
                    }) + "=; "@ + attrs + "; Max-Age=0"@,
                ),
        );
        assert(encoded(lines) == sent) by {
            assert(encoded(lines).len() == 11);
            assert forall|i: int| 0 <= i < 11 implies #[trigger] encoded(lines)[i] == sent[i] by {
                assert(encoded(lines)[i] == vstd::utf8::encode_utf8(lines[i]));
                if i == 0 {
                    assert(name + Seq::<char>::empty() == name);
                } else {
                    assert(lines[i] == clear_line(chunk_name(name, (i - 1) as nat), attrs));
                    assert(name + "."@ + decimal((i - 1) as nat) == name + ("."@ + decimal(
                        (i - 1) as nat,
                    )));
                }
            }
        }
        assert(already_set(*old(response)) == before.values(HeaderField::SetCookie));
    }
}

/// A session that was saved is loaded from the request that brings its cookies
/// back, among whatever others.
pub proof fn law_saved_bundle_is_loaded(
    store: &CookieSessionStore,
    bundle: &Vec<u8>,
    response: &mut pingora_http::ResponseHeader,
    jars: Seq<Seq<Pair>>,
    headers: &http::HeaderMap,
    r: Option<Vec<u8>>,
)
    requires
        call_ensures(CookieSessionStore::save_bundle, (store, bundle, response), Ok(())),
        base64_text(bundle@).len() > 0,
        each_fits(jars),
        carries_session(all_of(jars), store.cookie_name@, base64_text(bundle@)),
        values_under(header_fields(*headers), "cookie"@) == cookie_headers(jars),
        call_ensures(CookieSessionStore::load_bundle, (store, headers), r),
    ensures
        r is Some,
        r->0@ == bundle@,
{
    let text = base64_text(bundle@);
    assert(chunk_count(text.len()) > 0) by {
        assert(text.len() == (text.len() / 3800) * 3800 + text.len() % 3800);
    }
    assert(stored_bundle(received(jars), store.cookie_name@) == Some(bundle@));
}

/// The name of a cookie stands for a part of a session by what follows the base
/// name and a point; a name that does not begin with these stands for none.
pub proof fn law_chunk_names(name: Seq<char>, key: Seq<char>, i: nat)
    requires
        i <= usize::MAX,
    ensures
        chunk_number(name + "."@ + decimal(i), name) == Some(i),
        chunk_number(key, name) is Some ==> key.len() > name.len() && key.take(name.len() as int)
            == name && key[name.len() as int] == '.',
{
    reveal_strlit(".");
    lemma_chunk_number(name, i);
    if chunk_number(key, name) is Some {
        let suffix = key.subrange(name.len() as int, key.len() as int);
        assert(strip_prefix(key, name) == Some(suffix));
        assert("."@.is_prefix_of(suffix));
        assert(suffix[0] == "."@[0]);
        assert(key.take(name.len() as int) == name);
    }
}

/// Of several cookies that stand for one part, the last one counts.
pub proof fn law_last_chunk_counts(cookies: Seq<Pair>, more: Pair, name: Seq<char>, i: nat)
    ensures
        chunk_number(more.0, name) == Some(i) ==> chunk_in(cookies.push(more), name, i) == Some(
            more.1,
        ),
        chunk_number(more.0, name) != Some(i) ==> chunk_in(cookies.push(more), name, i) == chunk_in(
            cookies,
            name,
            i,
        ),
        chunk_in(Seq::empty(), name, i) is None,
{
    assert(cookies.push(more).drop_last() == cookies);
}

/// A session is there only where every part is: the first part says how many
/// there are, in front of a colon, and where one of them is missing, or the first
/// one says nothing of the kind, there is no session.
#[verifier::rlimit(30)]
pub proof fn law_session_needs_every_chunk(
    store: &CookieSessionStore,
    headers: &http::HeaderMap,
    count: nat,
    data: Seq<char>,
    i: nat,
    r: Option<Vec<u8>>,
)
    requires
        call_ensures(CookieSessionStore::load_bundle, (store, headers), r),
    ensures
        ({
            let sent = request_cookies(*headers);
            let name = store.cookie_name@;
            &&& chunk_in(sent, name, 0) is None ==> r is None
            &&& chunk_in(sent, name, 0) is Some && !chunk_in(sent, name, 0)->0.contains(':')
                ==> r is None
            &&& chunk_in(sent, name, 0) == Some(decimal(count) + ":"@ + data) && 1 <= i < count
                && count <= usize::MAX && chunk_in(sent, name, i) is None ==> r is None
            &&& chunk_in(sent, name, 0) == Some(decimal(1) + ":"@ + data) ==> match base64_bytes(
                data,
            ) {
                Some(bundle) => r is Some && r->0@ == bundle,
                None => r is None,
            }
        }),
{
    let sent = request_cookies(*headers);
    let name = store.cookie_name@;
    if chunk_in(sent, name, 0) is Some {
        law_first_occurrence_parts_a_text(chunk_in(sent, name, 0)->0, ':');
    }
    if chunk_in(sent, name, 0) == Some(decimal(count) + ":"@ + data) && 1 <= i < count && count
        <= usize::MAX {
        lemma_announced(count, data);
        if chunk_in(sent, name, i) is None {
            lemma_gap(sent, name, 1, i, count);
        }
    }
    if chunk_in(sent, name, 0) == Some(decimal(1) + ":"@ + data) {
        lemma_announced(1, data);
        assert(data + Seq::<char>::empty() == data);
    }
}

/// The number of parts is read from in front of the colon.
proof fn lemma_announced(count: nat, data: Seq<char>)
    requires
        count <= usize::MAX,
    ensures
        after(decimal(count) + ":"@ + data, ':') == Some(data),
        number(before(decimal(count) + ":"@ + data, ':')) == Some(count),
{
    reveal_strlit(":");
    let first = decimal(count) + ":"@ + data;
    let k = decimal(count).len() as int;
    lemma_decimal(count);
    assert(first[k] == ':');
    assert forall|j: int| 0 <= j < k implies first[j] != ':' by {
        assert(first[j] == decimal(count)[j]);
        assert(is_digit(decimal(count)[j]));
    }
    lemma_find_is(first, ':', k);
    assert(first.subrange(0, k) == decimal(count));
    assert(first.subrange(k + 1, first.len() as int) == data);
    lemma_number_of_decimal(count);
}

/// Where a part is missing, not all can be gathered.
proof fn lemma_gap(cookies: Seq<Pair>, name: Seq<char>, from: nat, i: nat, count: nat)
    requires
        from <= i < count,
        chunk_in(cookies, name, i) is None,
    ensures
        gathered(cookies, name, from, count) is None,
    decreases i - from,
{
    if from < i {
        lemma_gap(cookies, name, from + 1, i, count);
    }
}

/// A new store has the name, the flag and the path that it is given.
pub proof fn law_new_cookie_store(name: String, secure: bool, path: String, r: CookieSessionStore)
    requires
        call_ensures(CookieSessionStore::new, (name, secure, path), r),
    ensures
        r == (CookieSessionStore { cookie_name: name, secure, cookie_path: path }),
{
}

/// The parts of a session are put together in the order of their numbers, however
/// many they are: where the first part announces them all and each is there, the
/// session is what they stand for in Base64, one after another.
pub proof fn law_chunks_are_put_together(
    store: &CookieSessionStore,
    headers: &http::HeaderMap,
    parts: Seq<Seq<char>>,
    r: Option<Vec<u8>>,
)
    requires
        call_ensures(CookieSessionStore::load_bundle, (store, headers), r),
        1 <= parts.len() <= usize::MAX,
        chunk_in(request_cookies(*headers), store.cookie_name@, 0) == Some(
            decimal(parts.len()) + ":"@ + parts[0],
        ),
        forall|i: int|
            1 <= i < parts.len() ==> chunk_in(
                request_cookies(*headers),
                store.cookie_name@,
                i as nat,
            ) == Some(#[trigger] parts[i]),
    ensures
        match base64_bytes(parts.flatten()) {
            Some(bundle) => r is Some && r->0@ == bundle,
            None => r is None,
        },
{
    let sent = request_cookies(*headers);
    lemma_announced(parts.len(), parts[0]);
    lemma_parts_gathered(sent, store.cookie_name@, parts, 1);
    let rest = parts.subrange(1, parts.len() as int);
    assert(parts.drop_first() == rest);
    assert(parts.flatten() == parts[0] + rest.flatten());
}

/// The parts from `i` on are gathered in order.
proof fn lemma_parts_gathered(
    cookies: Seq<Pair>,
    name: Seq<char>,
    parts: Seq<Seq<char>>,
    i: nat,
)
    requires
        1 <= i <= parts.len(),
        forall|k: int|
            1 <= k < parts.len() ==> chunk_in(cookies, name, k as nat) == Some(#[trigger] parts[k]),
    ensures
        gathered(cookies, name, i, parts.len()) == Some(
            parts.subrange(i as int, parts.len() as int).flatten(),
        ),
    decreases parts.len() - i,
{
    let rest = parts.subrange(i as int, parts.len() as int);
    if i < parts.len() {
        lemma_parts_gathered(cookies, name, parts, i + 1);
        assert(rest.drop_first() == parts.subrange(i as int + 1, parts.len() as int));
        assert(rest[0] == parts[i as int]);
        assert(chunk_in(cookies, name, i) == Some(parts[i as int]));
    }
}

/// What the name of a cookie says behind the base name and a point is read as a
/// number.
pub proof fn law_chunk_number_is_read(name: Seq<char>, suffix: Seq<char>)
    ensures
        chunk_number(name + "."@ + suffix, name) == number(suffix),
{
    reveal_strlit(".");
    let key = name + "."@ + suffix;
    law_stripped_prefix_and_rest_make_the_text(key, name, "."@ + suffix);
    law_stripped_prefix_and_rest_make_the_text("."@ + suffix, "."@, suffix);
    assert(key == name + ("."@ + suffix));
}

/// A session is made for a completed login, from what it brought.
pub proof fn law_cookie_session_begins_with_its_login(
    completed: &CompletedLogin,
    r: Result<CookieSession, SessionError>,
)
    requires
        call_ensures(CookieSessionStore::create_session, (completed,), r),
    ensures
        r is Ok <==> completed.response().raw is Ok,
        r is Ok ==> r->Ok_0.0.raw_token_response == completed.response().raw->Ok_0,
        r is Ok ==> r->Ok_0.0.refresh_token == completed.response().refresh_token,
        r is Ok ==> r->Ok_0.0.id_token == completed.response().id_token,
        r is Ok ==> r->Ok_0.0.created_at == r->Ok_0.0.last_active,
{
}

/// What sessions are sealed with, and how they are cut.
pub proof fn law_session_constants()
    ensures
        SESSION_LABEL@ == "session"@,
        CHUNK_SIZE == 3800,
        MAX_CHUNKS == 10,
{
}

} // verus!
