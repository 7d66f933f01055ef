//! External-store-backed session storage.
//!
//! The browser keeps a sealed pointer cookie that holds the session key; the
//! session data is kept in an external store (Redis, a database, etc.).

use vstd::prelude::*;

use crate::headers::{
    add_value, bad_append_text, head_of, header_fields, header_safe, response_fields,
    response_names, response_status, values_under, HeaderField, MAX_HEADER_NAMES,
};
use crate::login::cookie::{
    all_of, attributes, base64_bytes, base64_text, cookie_attrs, cookie_headers, cookie_name,
    cookie_text, cookie_value, decode_value, each_fits, encode_value, first_value, get_cookie,
    law_cookies_round_trip, lemma_first_value, one_header, proper, received, request_cookies,
    url_safe, url_safe_char, visible, visible_char, Pair,
};
use crate::login::cookie_session::{
    already_set, clear_cookie_line, clear_line, lemma_attributes_safe, lemma_line_visible, lemma_lines_safe,
    lemma_url_safe_is_header_safe, set_cookie_line, set_line,
};
use crate::login::grant::{CompletedLogin, IdClaims};
use crate::login::session::SessionError;
use crate::login::token_session::{initial_state, TokenSession, TokenState};
use crate::text::{is_space, lemma_precedes_at, opt_str, opt_text, parts_at, precedes};
use crate::time::{SystemTime, CLOCK_LIMIT};
use crate::uri::clone_opt;

verus! {

// ── Session data ─────────────────────────────────────────────────────────────

/// Associated data with which a session key is sealed.
pub const POINTER_LABEL: &'static str = "session_ptr";

/// Core session data produced by the login flow: the session key, the token
/// data and the timing fields. It is handed to the external store after a
/// successful login.
pub struct CoreSessionData {
    session_key: String,
    sub: Option<String>,
    sid: Option<String>,
    state: TokenState,
}

impl CoreSessionData {
    /// The session key.
    pub closed spec fn key(&self) -> Seq<char> {
        self.session_key@
    }

    /// The subject identifier.
    pub closed spec fn subject(&self) -> Option<String> {
        self.sub
    }

    /// The session identifier at the issuer.
    pub closed spec fn session_id(&self) -> Option<String> {
        self.sid
    }

    /// The session data of a login, with the subject and session identifiers
    /// of its ID token claims.
    pub fn from_login(session_key: String, claims: Option<&IdClaims>, state: TokenState) -> (r:
        Self)
        ensures
            r.key() == session_key@,
            r.state() == state,
            match claims {
                Some(c) => r.subject() == c.sub && r.session_id() == c.sid,
                None => r.subject() is None && r.session_id() is None,
            },
    {
        let (sub, sid) = match claims {
            Some(c) => (clone_opt(&c.sub), clone_opt(&c.sid)),
            None => (None, None),
        };
        CoreSessionData { session_key, sub, sid, state }
    }

    /// The random session key used as the primary lookup key in the external
    /// store.
    pub fn session_key(&self) -> (r: &str)
        ensures
            r@ == self.key(),
    {
        self.session_key.as_str()
    }

    /// The subject identifier (`sub` claim) from the ID token, if present.
    pub fn sub(&self) -> (r: Option<&str>)
        ensures
            opt_str(r) == opt_text(self.subject()),
    {
        match &self.sub {
            Some(s) => Some(s.as_str()),
            None => None,
        }
    }

    /// The session identifier (`sid` claim) from the ID token, if present.
    pub fn sid(&self) -> (r: Option<&str>)
        ensures
            opt_str(r) == opt_text(self.session_id()),
    {
        match &self.sid {
            Some(s) => Some(s.as_str()),
            None => None,
        }
    }

    /// Consumes the session data, returning its parts.
    pub fn into_parts(self) -> (r: (String, Option<String>, Option<String>, TokenState))
        ensures
            r.0@ == self.key(),
            r.1 == self.subject(),
            r.2 == self.session_id(),
            r.3 == self.state(),
    {
        (self.session_key, self.sub, self.sid, self.state)
    }
}

impl TokenSession for CoreSessionData {
    closed spec fn state(&self) -> TokenState {
        self.state
    }

    /// The key, the subject and the session identifier are the same.
    open spec fn same_session(&self, other: &Self) -> bool {
        &&& self.key() == other.key()
        &&& self.subject() == other.subject()
        &&& self.session_id() == other.session_id()
    }

    fn token_state(&self) -> (r: &TokenState) {
        &self.state
    }

    fn set_token_state(&mut self, state: TokenState) {
        self.state = state;
    }
}

/// `c` is a lower-case hexadecimal digit.
pub open spec fn hex_digit(c: char) -> bool {
    '0' <= c <= '9' || 'a' <= c <= 'f'
}

/// `s` has the form of a UUID: 36 characters, hyphens after 8, 12, 16 and 20
/// digits, and lower-case hexadecimal digits otherwise.
pub open spec fn uuid_form(s: Seq<char>) -> bool {
    &&& s.len() == 36
    &&& forall|i: int|
        0 <= i < 36 ==> if i == 8 || i == 13 || i == 18 || i == 23 {
            #[trigger] s[i] == '-'
        } else {
            hex_digit(s[i])
        }
}

/// The value of a lower-case hexadecimal digit.
pub open spec fn hex_value(c: char) -> nat {
    if '0' <= c <= '9' {
        (c as nat - '0' as nat) as nat
    } else {
        (c as nat - 'a' as nat + 10) as nat
    }
}

/// The number that lower-case hexadecimal digits stand for.
pub open spec fn hex_number(digits: Seq<char>) -> nat
    decreases digits.len(),
{
    if digits.len() == 0 {
        0
    } else {
        hex_number(digits.drop_last()) * 16 + hex_value(digits.last())
    }
}

/// The time that a session key begins with: the number that its first twelve
/// digits stand for.
pub open spec fn key_time(key: Seq<char>) -> nat {
    hex_number(key.subrange(0, 8) + key.subrange(9, 13))
}

/// The milliseconds since the Unix epoch, at `secs` seconds and `nanos`
/// nanoseconds.
pub open spec fn unix_millis(secs: u64, nanos: u32) -> int {
    secs * 1000 + nanos as int / 1_000_000
}

/// Generates a time-ordered session key for a point in time.
///
/// Trusted: `uuid::Uuid::new_v7` of a `uuid::Timestamp` without a counter, and
/// its `Display`. The key begins with the lowest 48 bits of the milliseconds,
/// as far as those fit into 64 bits, and has the version digit 7; the rest is
/// chance, and that two keys differ is not claimed.
#[verifier::external_body]
pub(crate) fn generate_session_key(secs: u64, nanos: u32) -> (r: String)
    ensures
        uuid_form(r@),
        r@[14] == '7',
        unix_millis(secs, nanos) <= u64::MAX ==> key_time(r@) == unix_millis(secs, nanos)
            % 0x1_0000_0000_0000,
{
    uuid::Uuid::new_v7(uuid::Timestamp::from_unix(uuid::NoContext, secs, nanos)).to_string()
}

/// Makes the session data for a login that was completed `now`, under a new
/// session key.
pub fn create_core_session(completed: &CompletedLogin, now: SystemTime) -> (r: Result<
    CoreSessionData,
    SessionError,
>)
    requires
        0 <= now.nanos < CLOCK_LIMIT,
    ensures
        r is Ok == completed.response().raw is Ok,
        r matches Err(e) ==> e == SessionError::TokenResponse(completed.response().raw->Err_0),
        r matches Ok(core) ==> {
            &&& uuid_form(core.key())
            &&& core.key()[14] == '7'
            &&& now.nanos as int / 1_000_000 <= u64::MAX ==> key_time(core.key()) == (
            now.nanos as int / 1_000_000) % 0x1_0000_0000_0000
            &&& core.state() == initial_state(
                completed.response(),
                completed.response().raw->Ok_0,
                now,
            )
            &&& match completed.claims() {
                Some(c) => core.subject() == c.sub && core.session_id() == c.sid,
                None => core.subject() is None && core.session_id() is None,
            }
        },
{
    let state = match TokenState::from_completed_at(completed, now) {
        Ok(s) => s,
        Err(e) => return Err(e),
    };
    let secs: u64 = (now.nanos / 1_000_000_000) as u64;
    let nanos: u32 = (now.nanos % 1_000_000_000) as u32;
    assert(unix_millis(secs, nanos) == now.nanos as int / 1_000_000);
    let key = generate_session_key(secs, nanos);
    Ok(CoreSessionData::from_login(key, completed.id_claims(), state))
}

/// Digits of the same length that stand for the same number are the same, and
/// those that stand for a smaller number come first.
proof fn lemma_hex_order(x: Seq<char>, y: Seq<char>) -> (i: int)
    requires
        x.len() == y.len(),
        forall|i: int| 0 <= i < x.len() ==> hex_digit(#[trigger] x[i]),
        forall|i: int| 0 <= i < y.len() ==> hex_digit(#[trigger] y[i]),
    ensures
        hex_number(x) == hex_number(y) ==> x == y,
        hex_number(x) < hex_number(y) ==> parts_at(x, y, i),
    decreases x.len(),
{
    if x.len() == 0 {
        assert(x == y);
        0
    } else {
        let a = x.drop_last();
        let b = y.drop_last();
        let k = x.len() - 1;
        assert forall|i: int| 0 <= i < k implies hex_digit(#[trigger] a[i]) by {
            assert(a[i] == x[i]);
        }
        assert forall|i: int| 0 <= i < k implies hex_digit(#[trigger] b[i]) by {
            assert(b[i] == y[i]);
        }
        let i = lemma_hex_order(a, b);
        assert(hex_digit(x[k]) && hex_digit(y[k]));
        assert(x == a.push(x[k]) && y == b.push(y[k]));
        if hex_number(a) == hex_number(b) {
            k
        } else {
            i
        }
    }
}

/// Session keys sort by time: a key that begins with an earlier time comes
/// first in the order of texts.
pub proof fn law_session_keys_sort_by_time(a: Seq<char>, b: Seq<char>)
    requires
        uuid_form(a),
        uuid_form(b),
        key_time(a) < key_time(b),
    ensures
        precedes(a, b),
{
    let x = a.subrange(0, 8) + a.subrange(9, 13);
    let y = b.subrange(0, 8) + b.subrange(9, 13);
    assert forall|i: int| 0 <= i < 12 implies hex_digit(#[trigger] x[i]) && hex_digit(y[i]) by {
        let place = if i < 8 {
            i
        } else {
            i + 1
        };
        assert(x[i] == a[place] && y[i] == b[place]);
    }
    let i = lemma_hex_order(x, y);
    let k = if i < 8 {
        i
    } else {
        i + 1
    };
    assert(a[k] == x[i] && b[k] == y[i]);
    assert forall|j: int| 0 <= j < k implies a[j] == b[j] by {
        if j < 8 {
            assert(a[j] == x[j] && b[j] == y[j]);
        } else if j > 8 {
            assert(a[j] == x[j - 1] && b[j] == y[j - 1]);
        } else {
            assert(a[8] == '-' && b[8] == '-');
        }
    }
    lemma_precedes_at(a, b, k);
}

// ── Pointer cookie ───────────────────────────────────────────────────────────

/// A session store that keeps a sealed pointer cookie in the browser and
/// session data in the external store `E`.
pub struct StoreBackedSessionStore<E> {
    /// The external store.
    pub external: E,
    /// The name of the pointer cookie.
    pub cookie_name: String,
    /// Whether the cookie has the `Secure` attribute.
    pub secure: bool,
    /// The `Path` attribute of the cookie.
    pub cookie_path: String,
}

/// A cookie name under which a browser keeps a cookie: visible ASCII without
/// `;` and `=` that neither begins nor ends with a space.
pub open spec fn browser_cookie_name(name: Seq<char>) -> bool {
    visible(name) && cookie_name(name)
}

/// The sealed session key that the cookies of a request hold.
pub open spec fn pointer_in(cookies: Seq<Pair>, name: Seq<char>) -> Option<Seq<u8>> {
    match first_value(cookies, name) {
        Some(text) => base64_bytes(text),
        None => None,
    }
}

/// Where a browser sends back a cookie whose value encodes `bundle`, before any
/// other cookie of the same name, the bundle is read from it, whatever else the
/// browser sends and over however many `Cookie` headers.
pub proof fn law_pointer_cookie_round_trip(
    jars: Seq<Seq<Pair>>,
    name: Seq<char>,
    text: Seq<char>,
    bundle: Seq<u8>,
)
    requires
        each_fits(jars),
        first_value(all_of(jars), name) == Some(text),
        base64_bytes(text) == Some(bundle),
    ensures
        pointer_in(received(jars), name) == Some(bundle),
{
    law_cookies_round_trip(jars);
}

/// A cookie with an encoded value can be sent back alone in its header.
pub proof fn law_encoded_cookie_can_be_sent(name: Seq<char>, text: Seq<char>)
    requires
        browser_cookie_name(name),
        url_safe(text),
    ensures
        one_header(seq![(name, text)]),
        first_value(seq![(name, text)], name) == Some(text),
{
    reveal_strlit("=");
    let p: Pair = (name, text);
    let jar = seq![p];
    assert forall|i: int| 0 <= i < text.len() implies !is_space(#[trigger] text[i]) && text[i] != ';'
        && 32 <= text[i] as u32 && (text[i] as u32) < 127 by {
        assert(url_safe_char(text[i]));
        lemma_url_safe_char(text[i]);
    }
    assert(!text.contains(';'));
    assert(cookie_value(text));
    assert(proper(jar));
    let t = cookie_text(p);
    assert(visible(t)) by {
        assert forall|j: int| 0 <= j < t.len() implies visible_char(#[trigger] t[j]) by {
            if j < name.len() {
                assert(t[j] == name[j]);
            } else if j > name.len() {
                assert(t[j] == text[j - name.len() - 1]);
            }
        }
    }
    lemma_line_visible(jar);
    lemma_first_value(jar, 0);
}

/// A character of the Base64 alphabet is visible and no separator.
pub proof fn lemma_url_safe_char(c: char)
    requires
        url_safe_char(c),
    ensures
        !is_space(c),
        c != ';',
        c != '=',
        32 <= c as u32,
        (c as u32) < 127,
{
}

impl<E> StoreBackedSessionStore<E> {
    /// The attributes of the pointer cookie.
    pub open spec fn attrs(&self) -> Seq<char> {
        attributes(self.secure, self.cookie_path@)
    }

    /// The pointer cookie is fit for a header.
    pub open spec fn writable(&self) -> bool {
        header_safe(self.cookie_name@) && header_safe(self.cookie_path@)
    }

    /// Creates a new store-backed session store.
    ///
    /// - `external` — the external store
    /// - `cookie_name` — name of the pointer cookie
    /// - `secure` — whether to set the `Secure` cookie attribute
    /// - `cookie_path` — the `Path` cookie attribute
    pub fn new(external: E, cookie_name: String, secure: bool, cookie_path: String) -> (r: Self)
        ensures
            r.external == external,
            r.cookie_name == cookie_name,
            r.secure == secure,
            r.cookie_path == cookie_path,
    {
        StoreBackedSessionStore { external, cookie_name, secure, cookie_path }
    }

    /// Sets the pointer cookie to a sealed session key.
    ///
    /// Fails, with the response unchanged, where the name or the path of the
    /// cookie is not fit for a header.
    pub fn set_pointer_cookie(
        &self,
        bundle: &Vec<u8>,
        response: &mut pingora_http::ResponseHeader,
    ) -> (r: Result<(), SessionError>)
        requires
            response_names(*old(response)) < MAX_HEADER_NAMES,
        ensures
            response_names(*final(response)) <= response_names(*old(response)) + 1,
            r is Ok == self.writable(),
            r is Err ==> r->Err_0.text() == bad_append_text() && head_of(*final(response)) == head_of(*old(response)),
            r is Ok ==> head_of(*final(response)) == head_of(*old(response)).add_value(
                HeaderField::SetCookie,
                set_line(self.cookie_name@, base64_text(bundle@), self.attrs()),
            ),
            // The cookie that comes back holds the sealed key.
            forall|jars: Seq<Seq<Pair>>|
                each_fits(jars) && first_value(all_of(jars), self.cookie_name@) == Some(
                    base64_text(bundle@),
                ) ==> #[trigger] pointer_in(received(jars), self.cookie_name@) == Some(bundle@),
    {
        let value = encode_value(bundle);
        let attrs = cookie_attrs(self.secure, self.cookie_path.as_str());
        let line = set_cookie_line(self.cookie_name.as_str(), value.as_str(), attrs.as_str());
        proof {
            lemma_attributes_safe(self.secure, self.cookie_path@);
            lemma_url_safe_is_header_safe(value@);
            lemma_lines_safe(self.cookie_name@, value@, attrs@);
            assert forall|jars: Seq<Seq<Pair>>|
                each_fits(jars) && first_value(all_of(jars), self.cookie_name@) == Some(
                    value@,
                ) implies #[trigger] pointer_in(received(jars), self.cookie_name@) == Some(
                bundle@,
            ) by {
                law_pointer_cookie_round_trip(jars, self.cookie_name@, value@, bundle@);
            }
        }
        match add_value(
            response,
            HeaderField::SetCookie,
            line.as_str(),
        ) {
            Ok(()) => Ok(()),
            Err(e) => Err(SessionError::Header(e)),
        }
    }

    /// Reads the sealed session key from the pointer cookie of a request.
    pub fn read_pointer_cookie(&self, headers: &http::HeaderMap) -> (r: Option<Vec<u8>>)
        ensures
            match r {
                Some(b) => pointer_in(request_cookies(*headers), self.cookie_name@) == Some(b@),
                None => pointer_in(request_cookies(*headers), self.cookie_name@) is None,
            },
    {
        match get_cookie(headers, self.cookie_name.as_str()) {
            Some(encoded) => decode_value(encoded.as_str()),
            None => None,
        }
    }

    /// Clears the pointer cookie. A line that is no header value is left out.
    pub fn clear_pointer_cookie(&self, response: &mut pingora_http::ResponseHeader)
        requires
            response_names(*old(response)) < MAX_HEADER_NAMES,
        ensures
            response_names(*final(response)) <= response_names(*old(response)) + 1,
            self.writable() ==> head_of(*final(response)) == head_of(*old(response)).add_value(
                HeaderField::SetCookie,
                clear_line(self.cookie_name@, self.attrs()),
            ),
            !self.writable() ==> head_of(*final(response)) == head_of(*old(response)),
    {
        let attrs = cookie_attrs(self.secure, self.cookie_path.as_str());
        let line = clear_cookie_line(self.cookie_name.as_str(), attrs.as_str());
        proof {
            lemma_attributes_safe(self.secure, self.cookie_path@);
            lemma_lines_safe(self.cookie_name@, Seq::empty(), attrs@);
        }
        let _ = add_value(response, HeaderField::SetCookie, line.as_str());
    }
}

/// The session key in an unsealed pointer cookie, where it is UTF-8 text.
///
/// Trusted: `String::from_utf8` of std gives the text whose UTF-8 encoding is
/// the given bytes, and fails where they are no UTF-8 encoding.
#[verifier::external_body]
fn utf8_text(bytes: Vec<u8>) -> (r: Option<String>)
    ensures
        match r {
            Some(s) => vstd::utf8::encode_utf8(s@) == bytes@,
            None => !vstd::utf8::valid_utf8(bytes@),
        },
{
    String::from_utf8(bytes).ok()
}

/// The session key in an unsealed pointer cookie.
pub fn session_key_of(plaintext: Vec<u8>) -> (r: Option<String>)
    ensures
        match r {
            Some(s) => vstd::utf8::encode_utf8(s@) == plaintext@,
            None => !vstd::utf8::valid_utf8(plaintext@),
        },
{
    utf8_text(plaintext)
}

// ── Laws ─────────────────────────────────────────────────────────────────────

/// The pointer cookie is set to the Base64 text of the sealed key, with its
/// attributes. It is added to the cookies that the response sets already, and
/// nothing else of it changes; it cannot be set exactly where its name or path is
/// not fit for a header.
pub proof fn law_pointer_cookie_is_set<E>(
    store: &StoreBackedSessionStore<E>,
    bundle: &Vec<u8>,
    response: &mut pingora_http::ResponseHeader,
    r: Result<(), SessionError>,
)
    requires
        call_ensures(
            StoreBackedSessionStore::<E>::set_pointer_cookie,
            (store, bundle, response),
            r,
        ),
    ensures
        r is Ok <==> header_safe(store.cookie_name@) && header_safe(store.cookie_path@),
        r is Err ==> r->Err_0.text()
            == " InvalidHTTPHeader context: invalid value while append"@,
        response_status(*final(response)) == response_status(*old(response)),
        r is Err ==> response_fields(*final(response)) == response_fields(*old(response)),
        r is Ok ==> response_fields(*final(response)) == response_fields(*old(response)).insert(
            "set-cookie"@,
            already_set(*old(response)).push(
                vstd::utf8::encode_utf8(
                    store.cookie_name@ + "="@ + base64_text(bundle@) + "; "@ + (
                    "HttpOnly; SameSite=Lax; Path="@ + store.cookie_path@ + if store.secure {
                        "; Secure"@
                    } else {
                        ""@
                    }),
                ),
            ),
        ),
{
    let before = head_of(*old(response));
    let after = head_of(*final(response));
    assert(before.status == response_status(*old(response)) && before.fields == response_fields(
        *old(response),
    ));
    assert(after.status == response_status(*final(response)) && after.fields == response_fields(
        *final(response),
    ));
    assert(already_set(*old(response)) == before.values(HeaderField::SetCookie));
}

/// The pointer cookie is cleared by emptying it, and nothing else of the response
/// changes.
pub proof fn law_pointer_cookie_is_cleared<E>(
    store: &StoreBackedSessionStore<E>,
    response: &mut pingora_http::ResponseHeader,
)
    requires
        call_ensures(
            StoreBackedSessionStore::<E>::clear_pointer_cookie,
            (store, response),
            (),
        ),
    ensures
        response_status(*final(response)) == response_status(*old(response)),
        !(header_safe(store.cookie_name@) && header_safe(store.cookie_path@)) ==> response_fields(
            *final(response),
        ) == response_fields(*old(response)),
        header_safe(store.cookie_name@) && header_safe(store.cookie_path@) ==> response_fields(
            *final(response),
        ) == response_fields(*old(response)).insert(
            "set-cookie"@,
            already_set(*old(response)).push(
                vstd::utf8::encode_utf8(
                    store.cookie_name@ + "=; "@ + ("HttpOnly; SameSite=Lax; Path="@
                        + store.cookie_path@ + if store.secure {
                        "; Secure"@
                    } else {
                        ""@
                    }) + "; Max-Age=0"@,
                ),
            ),
        ),
{
    let before = head_of(*old(response));
    let after = head_of(*final(response));
    assert(before.status == response_status(*old(response)) && before.fields == response_fields(
        *old(response),
    ));
    assert(after.status == response_status(*final(response)) && after.fields == response_fields(
        *final(response),
    ));
    assert(already_set(*old(response)) == before.values(HeaderField::SetCookie));
}

/// The sealed key is what the first cookie with the name of the pointer stands for
/// in Base64; without such a cookie, or where it is no Base64 text, there is none.
pub proof fn law_pointer_cookie_is_read<E>(
    store: &StoreBackedSessionStore<E>,
    headers: &http::HeaderMap,
    name: &str,
    value: Option<String>,
    r: Option<Vec<u8>>,
)
    requires
        name@ == store.cookie_name@,
        call_ensures(get_cookie, (headers, name), value),
        call_ensures(StoreBackedSessionStore::<E>::read_pointer_cookie, (store, headers), r),
    ensures
        value is None ==> r is None,
        value is Some ==> match base64_bytes(value->0@) {
            Some(bundle) => r is Some && r->0@ == bundle,
            None => r is None,
        },
{
}

/// A pointer that was set is read from the request that brings its cookie back,
/// before any other cookie of that name.
pub proof fn law_pointer_that_was_set_is_read<E>(
    store: &StoreBackedSessionStore<E>,
    bundle: &Vec<u8>,
    response: &mut pingora_http::ResponseHeader,
    jars: Seq<Seq<Pair>>,
    headers: &http::HeaderMap,
    r: Option<Vec<u8>>,
)
    requires
        call_ensures(
            StoreBackedSessionStore::<E>::set_pointer_cookie,
            (store, bundle, response),
            Ok(()),
        ),
        each_fits(jars),
        first_value(all_of(jars), store.cookie_name@) == Some(base64_text(bundle@)),
        values_under(header_fields(*headers), "cookie"@) == cookie_headers(jars),
        call_ensures(StoreBackedSessionStore::<E>::read_pointer_cookie, (store, headers), r),
    ensures
        r is Some,
        r->0@ == bundle@,
{
    assert(pointer_in(received(jars), store.cookie_name@) == Some(bundle@));
}

/// A new store has the parts that it is given.
pub proof fn law_new_pointer_store<E>(
    external: E,
    name: String,
    secure: bool,
    path: String,
    r: StoreBackedSessionStore<E>,
)
    requires
        call_ensures(StoreBackedSessionStore::<E>::new, (external, name, secure, path), r),
    ensures
        r == (StoreBackedSessionStore { external, cookie_name: name, secure, cookie_path: path }),
{
}

/// The data of a session shows what it was made of: its key, its state, and the
/// subject and session identifiers of the ID token, where there was one.
pub proof fn law_session_data_shows_its_parts(
    key: String,
    claims: Option<&IdClaims>,
    state: TokenState,
    core: CoreSessionData,
    shown: &str,
    sub: Option<&str>,
    sid: Option<&str>,
    parts: (String, Option<String>, Option<String>, TokenState),
)
    requires
        call_ensures(CoreSessionData::from_login, (key, claims, state), core),
        call_ensures(CoreSessionData::session_key, (&core,), shown),
        call_ensures(CoreSessionData::sub, (&core,), sub),
        call_ensures(CoreSessionData::sid, (&core,), sid),
        call_ensures(CoreSessionData::into_parts, (core,), parts),
    ensures
        shown@ == key@,
        sub is Some <==> claims is Some && claims->0.sub is Some,
        sub is Some ==> sub->0@ == claims->0.sub->0@,
        sid is Some <==> claims is Some && claims->0.sid is Some,
        sid is Some ==> sid->0@ == claims->0.sid->0@,
        parts.0@ == key@,
        claims is Some ==> parts.1 == claims->0.sub && parts.2 == claims->0.sid,
        claims is None ==> parts.1 is None && parts.2 is None,
        parts.3 == state,
{
}

/// The session of a login has a key of its time, and begins with what the login
/// brought.
pub proof fn law_core_session_begins_with_its_login(
    completed: &CompletedLogin,
    now: SystemTime,
    state: Result<TokenState, SessionError>,
    r: Result<CoreSessionData, SessionError>,
)
    requires
        0 <= now.nanos < CLOCK_LIMIT,
        call_ensures(TokenState::from_completed_at, (completed, now), state),
        call_ensures(create_core_session, (completed, now), r),
    ensures
        r is Ok <==> state is Ok,
        r is Ok ==> r->Ok_0.state() == state->Ok_0,
        r is Err ==> r->Err_0 == state->Err_0,
        r is Ok ==> r->Ok_0.key().len() == 36 && r->Ok_0.key()[14] == '7',
        r is Ok && now.nanos as int / 1_000_000 < 0x1_0000_0000_0000 ==> key_time(r->Ok_0.key())
            == now.nanos as int / 1_000_000,
        r is Ok && completed.claims() is Some ==> r->Ok_0.subject() == completed.claims()->0.sub
            && r->Ok_0.session_id() == completed.claims()->0.sid,
        r is Ok && completed.claims() is None ==> r->Ok_0.subject() is None
            && r->Ok_0.session_id() is None,
{
}

/// A session key is read from the bytes that are its UTF-8 form, and from no
/// others.
pub proof fn law_session_key_is_read_back(plaintext: Vec<u8>, r: Option<String>)
    requires
        call_ensures(session_key_of, (plaintext,), r),
    ensures
        r is None ==> !vstd::utf8::valid_utf8(plaintext@),
        r is Some ==> vstd::utf8::encode_utf8(r->0@) == plaintext@,
{
}

/// The numbers that hexadecimal digits stand for: one digit more makes the number
/// sixteen times as large, and adds the digit.
pub proof fn law_hex_numbers(digits: Seq<char>, d: char)
    requires
        '0' <= d <= '9' || 'a' <= d <= 'f',
    ensures
        hex_number(Seq::empty()) == 0,
        hex_number(digits.push(d)) == hex_number(digits) * 16 + if d <= '9' {
            d as int - '0' as int
        } else {
            d as int - 'a' as int + 10
        },
{
    assert(digits.push(d).drop_last() == digits);
}

/// What session keys are sealed with.
pub proof fn law_pointer_label()
    ensures
        POINTER_LABEL@ == "session_ptr"@,
{
}

} // verus!
