//! Request and response headers.
//!
//! Requests bring an `http::HeaderMap`; responses are built as a
//! `pingora_http::ResponseHeader`. Both are kept as they are, and what they
//! hold is modelled by a map.

use vstd::prelude::*;

use crate::text::opt_text;

verus! {

// ── Request headers ──────────────────────────────────────────────────────────

/// `http::HeaderMap`, a multi-map from header names to values.
#[verifier::external_type_specification]
#[verifier::external_body]
#[verifier::reject_recursive_types(T)]
pub struct ExHeaderMap<T>(http::HeaderMap<T>);

/// `http::HeaderValue`, the value type of a header map.
#[verifier::external_type_specification]
#[verifier::external_body]
pub struct ExHeaderValue(http::HeaderValue);

/// What a header map holds: under each lower-case name, the values in the
/// order in which they were added.
pub uninterp spec fn header_fields(h: http::HeaderMap) -> Map<Seq<char>, Seq<Seq<u8>>>;

/// `name` is written in the characters `a` to `z` and `-`.
pub open spec fn lower_case_name(name: Seq<char>) -> bool {
    name.len() > 0 && forall|i: int|
        0 <= i < name.len() ==> ('a' <= #[trigger] name[i] <= 'z' || name[i] == '-')
}

/// The values under `name`; none if the name is absent.
pub open spec fn values_under(
    fields: Map<Seq<char>, Seq<Seq<u8>>>,
    name: Seq<char>,
) -> Seq<Seq<u8>> {
    if fields.dom().contains(name) {
        fields[name]
    } else {
        Seq::empty()
    }
}

/// The views of a list of byte strings.
pub open spec fn byte_strings(v: Seq<Vec<u8>>) -> Seq<Seq<u8>> {
    v.map_values(|b: Vec<u8>| b@)
}

/// The values under `name`, as bytes.
///
/// Trusted: `http::HeaderMap::get_all` returns the values under a name in the
/// order in which they were added, and nothing where the name is absent.
#[verifier::external_body]
pub(crate) fn header_values(headers: &http::HeaderMap, name: &str) -> (r: Vec<Vec<u8>>)
    requires
        lower_case_name(name@),
    ensures
        byte_strings(r@) == values_under(header_fields(*headers), name@),
{
    headers.get_all(name).iter().map(|v| v.as_bytes().to_vec()).collect()
}

/// A byte that a header value may hold as text: visible ASCII, space or tab.
pub open spec fn text_byte(b: u8) -> bool {
    32 <= b < 127 || b == 9
}

/// A header value as text, where all its bytes are visible ASCII, space or tab.
pub open spec fn value_text(b: Seq<u8>) -> Option<Seq<char>> {
    if forall|i: int| 0 <= i < b.len() ==> text_byte(#[trigger] b[i]) {
        Some(Seq::new(b.len(), |i: int| b[i] as char))
    } else {
        None
    }
}

/// A header value as text, where all its bytes are visible ASCII, space or tab.
pub fn visible_text(bytes: &Vec<u8>) -> (r: Option<String>)
    ensures
        match r {
            Some(s) => value_text(bytes@) == Some(s@),
            None => value_text(bytes@) is None,
        },
{
    let mut out = String::new();
    let mut i: usize = 0;
    while i < bytes.len()
        invariant
            i <= bytes@.len(),
            forall|k: int| 0 <= k < i ==> text_byte(#[trigger] bytes@[k]),
            out@ == Seq::new(i as nat, |k: int| bytes@[k] as char),
        decreases bytes@.len() - i,
    {
        let b: u8 = bytes[i];
        if !((32 <= b && b < 127) || b == 9) {
            return None;
        }
        out.push(b as char);
        assert(out@ == Seq::new((i + 1) as nat, |k: int| bytes@[k] as char));
        i = i + 1;
    }
    Some(out)
}

// ── Upstream request headers ─────────────────────────────────────────────────

/// `pingora_http::RequestHeader`, the head of a request to the upstream.
#[verifier::external_type_specification]
#[verifier::external_body]
pub struct ExRequestHeader(pingora_http::RequestHeader);

/// What a request head holds: under each lower-case name, the values in the
/// order in which they were added.
pub uninterp spec fn request_fields(r: pingora_http::RequestHeader) -> Map<Seq<char>, Seq<Seq<u8>>>;

/// Removes every header under `name`.
///
/// Trusted: `pingora_http::RequestHeader::remove_header` removes all values
/// under a name and leaves the other headers as they are.
#[verifier::external_body]
pub(crate) fn remove_header(request: &mut pingora_http::RequestHeader, name: &str)
    requires
        lower_case_name(name@),
    ensures
        request_fields(*final(request)) == request_fields(*old(request)).remove(name@),
{
    request.remove_header(name);
}

// ── Response headers ─────────────────────────────────────────────────────────

/// `pingora_http::ResponseHeader`, the head of a response.
#[verifier::external_type_specification]
#[verifier::external_body]
pub struct ExResponseHeader(pingora_http::ResponseHeader);

/// `pingora_error::Error`, what building a response head fails with.
#[verifier::external_type_specification]
#[verifier::external_body]
pub struct ExPingoraError(pingora_error::Error);

/// The response headers that the library sets.
#[derive(Debug, Clone, Copy, PartialEq, Eq, Structural)]
pub enum HeaderField {
    Allow,
    CacheControl,
    ContentLength,
    ContentType,
    DpopNonce,
    Location,
    SetCookie,
    WwwAuthenticate,
}

impl HeaderField {
    /// The name under which the header is sent.
    pub open spec fn wire_name(self) -> Seq<char> {
        match self {
            HeaderField::Allow => "allow"@,
            HeaderField::CacheControl => "Cache-Control"@,
            HeaderField::ContentLength => "Content-Length"@,
            HeaderField::ContentType => "Content-Type"@,
            HeaderField::DpopNonce => "DPoP-Nonce"@,
            HeaderField::Location => "location"@,
            HeaderField::SetCookie => "Set-Cookie"@,
            HeaderField::WwwAuthenticate => "www-authenticate"@,
        }
    }

    /// The lower-case name under which a head keeps the header.
    pub open spec fn key(self) -> Seq<char> {
        match self {
            HeaderField::Allow => "allow"@,
            HeaderField::CacheControl => "cache-control"@,
            HeaderField::ContentLength => "content-length"@,
            HeaderField::ContentType => "content-type"@,
            HeaderField::DpopNonce => "dpop-nonce"@,
            HeaderField::Location => "location"@,
            HeaderField::SetCookie => "set-cookie"@,
            HeaderField::WwwAuthenticate => "www-authenticate"@,
        }
    }

    /// The name under which the header is sent.
    pub fn name(self) -> (r: &'static str)
        ensures
            r@ == self.wire_name(),
    {
        match self {
            HeaderField::Allow => "allow",
            HeaderField::CacheControl => "Cache-Control",
            HeaderField::ContentLength => "Content-Length",
            HeaderField::ContentType => "Content-Type",
            HeaderField::DpopNonce => "DPoP-Nonce",
            HeaderField::Location => "location",
            HeaderField::SetCookie => "Set-Cookie",
            HeaderField::WwwAuthenticate => "www-authenticate",
        }
    }
}

/// What a response head holds: under each lower-case name, the values in the
/// order in which they were added.
pub uninterp spec fn response_fields(r: pingora_http::ResponseHeader) -> Map<
    Seq<char>,
    Seq<Seq<u8>>,
>;

/// The status code of a response head.
pub uninterp spec fn response_status(r: pingora_http::ResponseHeader) -> u16;

/// The number of distinct names that a response head holds, among its headers
/// or in its record of how their names are spelt.
pub uninterp spec fn response_names(r: pingora_http::ResponseHeader) -> nat;

/// The largest number of distinct header names with which a header map can
/// always take a header. A map that suspects crafted names grows once a fifth
/// of its slots is taken, and the largest map has 32768 slots.
pub const MAX_HEADER_NAMES: usize = 6553;

/// `s` can be sent as a header value: no control character but tab.
pub open spec fn header_safe(s: Seq<char>) -> bool {
    forall|i: int|
        0 <= i < s.len() ==> ((#[trigger] s[i]) as u32 >= 32 && s[i] as u32 != 127 || s[i] as u32
            == 9)
}

/// A response head can take a value under `field`, and then any number more.
pub open spec fn takes(r: pingora_http::ResponseHeader, field: HeaderField) -> bool {
    &&& response_names(r) <= MAX_HEADER_NAMES
    &&& response_names(r) < MAX_HEADER_NAMES || response_fields(r).dom().contains(field.key())
}

/// From one response head to a later one, no name but that of `field` is new.
pub open spec fn only_new(
    before: pingora_http::ResponseHeader,
    after: pingora_http::ResponseHeader,
    field: HeaderField,
) -> bool {
    let key = field.key();
    &&& response_names(after) <= response_names(before) + 1
    &&& response_fields(before).dom().contains(key) ==> response_fields(after).dom().contains(key)
        && response_names(after) == response_names(before)
    &&& !response_fields(after).dom().contains(key) ==> response_names(after) == response_names(
        before,
    )
}

/// The bytes that are sent for each of a list of header values.
pub open spec fn encoded(values: Seq<Seq<char>>) -> Seq<Seq<u8>> {
    values.map_values(|v: Seq<char>| vstd::utf8::encode_utf8(v))
}

/// A head without headers.
pub open spec fn no_fields() -> Map<Seq<char>, Seq<Seq<u8>>> {
    Map::empty()
}

/// What `pingora_error::Error` prints as.
pub uninterp spec fn header_error_repr(e: pingora_error::Error) -> Seq<char>;

/// The text of an error.
///
/// Trusted: `Display` of `pingora_error::Error`, whose text depends on the
/// error alone.
#[verifier::external_body]
pub(crate) fn header_error_text(e: &pingora_error::Error) -> (r: String)
    ensures
        r@ == header_error_repr(*e),
{
    e.to_string()
}

/// An empty response head with the given status.
///
/// Trusted: `pingora_http::ResponseHeader::build` makes a head without headers
/// and fails on a status outside 100 to 999, with an error that names its type
/// and context, and no source or cause.
#[verifier::external_body]
pub(crate) fn build_response(status: u16) -> (r: Result<
    pingora_http::ResponseHeader,
    Box<pingora_error::Error>,
>)
    ensures
        r is Ok == (100 <= status <= 999),
        r matches Err(e) ==> header_error_repr(*e) == bad_status_text(),
        r matches Ok(h) ==> response_status(h) == status,
        r matches Ok(h) ==> response_fields(h) == no_fields(),
        r matches Ok(h) ==> response_names(h) == 0,
{
    pingora_http::ResponseHeader::build(status, None)
}

/// Sets a header, replacing every value that it had.
///
/// Trusted: `pingora_http::ResponseHeader::insert_header` replaces the values
/// under a name by one value, the bytes of the text, and fails, changing
/// nothing, on a text that is no header value: that error names its type and
/// context, and no source or cause. The maps behind it panic when
/// they outgrow their largest table, which needs more names than
/// `MAX_HEADER_NAMES`: room is made before the name is looked up.
#[verifier::external_body]
pub(crate) fn insert_header(
    response: &mut pingora_http::ResponseHeader,
    field: HeaderField,
    value: &str,
) -> (r: Result<(), Box<pingora_error::Error>>)
    requires
        response_names(*old(response)) <= MAX_HEADER_NAMES,
    ensures
        r is Ok == header_safe(value@),
        r matches Err(e) ==> header_error_repr(*e) == bad_insert_text(),
        response_status(*final(response)) == response_status(*old(response)),
        r is Err ==> response_fields(*final(response)) == response_fields(*old(response)),
        r is Err ==> response_names(*final(response)) == response_names(*old(response)),
        r is Ok ==> response_fields(*final(response)) == response_fields(*old(response)).insert(
            field.key(),
            seq![vstd::utf8::encode_utf8(value@)],
        ),
        response_names(*final(response)) <= response_names(*old(response)) + 1,
{
    response.insert_header(field.name(), value)
}

/// Adds a value to a header, keeping those that it has.
///
/// Trusted: `pingora_http::ResponseHeader::append_header` adds a value, the
/// bytes of the text, behind those under the same name, and fails, changing
/// nothing, on a text that is no header value: that error names its type and
/// context, and no source or cause. A name that the head holds already is not
/// counted anew. For the bound on names see `insert_header`.
#[verifier::external_body]
pub(crate) fn append_header(
    response: &mut pingora_http::ResponseHeader,
    field: HeaderField,
    value: &str,
) -> (r: Result<bool, Box<pingora_error::Error>>)
    requires
        response_names(*old(response)) <= MAX_HEADER_NAMES,
    ensures
        r is Ok == header_safe(value@),
        r matches Err(e) ==> header_error_repr(*e) == bad_append_text(),
        response_status(*final(response)) == response_status(*old(response)),
        r is Err ==> response_fields(*final(response)) == response_fields(*old(response)),
        r is Err ==> response_names(*final(response)) == response_names(*old(response)),
        r is Ok ==> response_fields(*final(response)) == response_fields(*old(response)).insert(
            field.key(),
            values_under(response_fields(*old(response)), field.key()).push(
                vstd::utf8::encode_utf8(value@),
            ),
        ),
        response_names(*final(response)) <= response_names(*old(response)) + 1,
        response_fields(*old(response)).dom().contains(field.key()) ==> response_names(
            *final(response),
        ) == response_names(*old(response)),
{
    response.append_header(field.name(), value)
}

/// A response could not be made or stored.
#[derive(Debug)]
pub struct ResponseError {
    /// What failed.
    pub context: String,
    /// What was said by that which failed.
    pub cause: Option<String>,
}

impl ResponseError {
    /// The error has the given context and cause.
    pub open spec fn says(self, context: Seq<char>, cause: Option<Seq<char>>) -> bool {
        self.context@ == context && opt_text(self.cause) == cause
    }

    /// An error with a cause.
    pub fn because(context: &str, cause: String) -> (r: Self)
        ensures
            r.says(context@, Some(cause@)),
    {
        ResponseError { context: context.to_owned(), cause: Some(cause) }
    }

    /// An error without a cause.
    pub fn new(context: &str) -> (r: Self)
        ensures
            r.says(context@, None),
    {
        ResponseError { context: context.to_owned(), cause: None }
    }
}

/// What is said of a status code that is none.
pub open spec fn bad_status_text() -> Seq<char> {
    " InvalidHTTPHeader context: invalid status"@
}

/// What is said where a header is set to a text that is no header value.
pub open spec fn bad_insert_text() -> Seq<char> {
    " InvalidHTTPHeader context: invalid value while insert"@
}

/// What is said where a text that is no header value is added to a header.
pub open spec fn bad_append_text() -> Seq<char> {
    " InvalidHTTPHeader context: invalid value while append"@
}

/// The head of a response in the model: its status and all its headers.
#[verifier::ext_equal]
pub struct Head {
    pub status: u16,
    pub fields: Map<Seq<char>, Seq<Seq<u8>>>,
}

/// The model of a response head.
pub open spec fn head_of(r: pingora_http::ResponseHeader) -> Head {
    Head { status: response_status(r), fields: response_fields(r) }
}

impl Head {
    /// A head without headers.
    pub open spec fn new(status: u16) -> Head {
        Head { status, fields: no_fields() }
    }

    /// The values under a header.
    pub open spec fn values(self, field: HeaderField) -> Seq<Seq<u8>> {
        values_under(self.fields, field.key())
    }

    /// This head with a header set; every other header stays as it is.
    pub open spec fn with(self, field: HeaderField, value: Seq<char>) -> Head {
        Head {
            fields: self.fields.insert(field.key(), seq![vstd::utf8::encode_utf8(value)]),
            ..self
        }
    }

    /// This head with a value added to a header; every other header stays as
    /// it is.
    pub open spec fn add_value(self, field: HeaderField, value: Seq<char>) -> Head {
        Head {
            fields: self.fields.insert(
                field.key(),
                self.values(field).push(vstd::utf8::encode_utf8(value)),
            ),
            ..self
        }
    }

    /// This head with values added to a header, in order; every other header
    /// stays as it is.
    pub open spec fn add_values(self, field: HeaderField, values: Seq<Seq<char>>) -> Head {
        if values.len() == 0 {
            self
        } else {
            Head {
                fields: self.fields.insert(field.key(), self.values(field) + encoded(values)),
                ..self
            }
        }
    }
}

/// The lower-case form of an ASCII letter; any other character as it is.
pub open spec fn lower(c: char) -> char {
    if 'A' <= c <= 'Z' {
        (c as u32 + 32) as char
    } else {
        c
    }
}

/// A header is kept under the lower-case form of the name under which it is
/// sent.
pub proof fn law_keys_are_lower_case_names(field: HeaderField)
    ensures
        field.key() == field.wire_name().map_values(|c: char| lower(c)),
        lower_case_name(field.key()),
{
    reveal_strlit("allow");
    reveal_strlit("cache-control");
    reveal_strlit("content-length");
    reveal_strlit("content-type");
    reveal_strlit("dpop-nonce");
    reveal_strlit("location");
    reveal_strlit("set-cookie");
    reveal_strlit("www-authenticate");
    reveal_strlit("Cache-Control");
    reveal_strlit("Content-Length");
    reveal_strlit("Content-Type");
    reveal_strlit("DPoP-Nonce");
    reveal_strlit("Set-Cookie");
    let sent = field.wire_name().map_values(|c: char| lower(c));
    assert(field.key().len() == sent.len());
    assert forall|i: int| 0 <= i < sent.len() implies field.key()[i] == sent[i] by {}
    assert(field.key() == sent);
}

/// Distinct headers are kept under distinct names.
pub proof fn lemma_keys_distinct()
    ensures
        forall|a: HeaderField, b: HeaderField| #[trigger] a.key() == #[trigger] b.key() ==> a == b,
{
    reveal_strlit("allow");
    reveal_strlit("cache-control");
    reveal_strlit("content-length");
    reveal_strlit("content-type");
    reveal_strlit("dpop-nonce");
    reveal_strlit("location");
    reveal_strlit("set-cookie");
    reveal_strlit("www-authenticate");
    assert forall|a: HeaderField, b: HeaderField| #[trigger] a.key() == #[trigger] b.key() implies a
        == b by {
        assert(a.key().len() == b.key().len());
        assert(a.key()[0] == b.key()[0]);
        assert(a.key()[2] == b.key()[2]);
    }
}

/// Setting or adding to one header leaves the values of every other name as
/// they were.
pub proof fn law_other_headers_stay(
    head: Head,
    field: HeaderField,
    value: Seq<char>,
    values: Seq<Seq<char>>,
    name: Seq<char>,
)
    requires
        name != field.key(),
    ensures
        values_under(head.with(field, value).fields, name) == values_under(head.fields, name),
        values_under(head.add_value(field, value).fields, name) == values_under(head.fields, name),
        values_under(head.add_values(field, values).fields, name) == values_under(
            head.fields,
            name,
        ),
{
}

/// Adding values and then one more adds them all.
pub proof fn lemma_add_values_push(
    head: Head,
    field: HeaderField,
    values: Seq<Seq<char>>,
    value: Seq<char>,
)
    ensures
        head.add_values(field, values).add_value(field, value) == head.add_values(
            field,
            values.push(value),
        ),
{
    let before = head.add_values(field, values);
    let byte_form = vstd::utf8::encode_utf8(value);
    assert(encoded(values.push(value)) == encoded(values).push(byte_form));
    if values.len() == 0 {
        assert(head.values(field).push(byte_form) == head.values(field) + encoded(
            values.push(value),
        ));
    } else {
        assert((head.values(field) + encoded(values)).push(byte_form) == head.values(field)
            + encoded(values.push(value)));
        assert(before.fields.insert(field.key(), before.values(field).push(byte_form))
            == head.fields.insert(
            field.key(),
            head.values(field) + encoded(values.push(value)),
        ));
    }
}

/// A text is fit for a header where its parts are.
pub broadcast proof fn lemma_header_safe_concat(a: Seq<char>, b: Seq<char>)
    ensures
        #[trigger] header_safe(a + b) == (header_safe(a) && header_safe(b)),
{
    let s = a + b;
    if header_safe(s) {
        assert forall|i: int| 0 <= i < a.len() implies ((#[trigger] a[i]) as u32 >= 32 && a[i] as u32
            != 127 || a[i] as u32 == 9) by {
            assert(s[i] == a[i]);
        }
        assert forall|i: int| 0 <= i < b.len() implies ((#[trigger] b[i]) as u32 >= 32 && b[i] as u32
            != 127 || b[i] as u32 == 9) by {
            assert(s[i + a.len()] == b[i]);
        }
    }
}

/// Starts a response head.
pub(crate) fn start_response(status: u16, context: &str) -> (r: Result<
    pingora_http::ResponseHeader,
    ResponseError,
>)
    ensures
        r is Ok == (100 <= status <= 999),
        r matches Ok(h) ==> head_of(h) == Head::new(status) && response_names(h) == 0,
        r matches Err(e) ==> e.says(context@, Some(bad_status_text())),
{
    match build_response(status) {
        Ok(h) => Ok(h),
        Err(e) => Err(ResponseError::because(context, header_error_text(&e))),
    }
}

/// Sets a header, or says what failed.
pub(crate) fn put_header(
    response: &mut pingora_http::ResponseHeader,
    field: HeaderField,
    value: &str,
    context: &str,
) -> (r: Result<(), ResponseError>)
    requires
        response_names(*old(response)) <= MAX_HEADER_NAMES,
    ensures
        r is Ok == header_safe(value@),
        r is Ok ==> head_of(*final(response)) == head_of(*old(response)).with(field, value@),
        response_names(*final(response)) <= response_names(*old(response)) + 1,
        r matches Err(e) ==> e.says(context@, Some(bad_insert_text())) && head_of(
            *final(response),
        ) == head_of(*old(response)),
{
    match insert_header(response, field, value) {
        Ok(()) => Ok(()),
        Err(e) => Err(ResponseError::because(context, header_error_text(&e))),
    }
}

/// Adds a value to a header, or says why it cannot be added.
pub(crate) fn add_value(
    response: &mut pingora_http::ResponseHeader,
    field: HeaderField,
    value: &str,
) -> (r: Result<(), String>)
    requires
        takes(*old(response), field),
    ensures
        takes(*final(response), field),
        only_new(*old(response), *final(response), field),
        r is Ok == header_safe(value@),
        r is Ok ==> head_of(*final(response)) == head_of(*old(response)).add_value(field, value@),
        r matches Err(text) ==> text@ == bad_append_text() && head_of(*final(response)) == head_of(
            *old(response),
        ),
{
    match append_header(response, field, value) {
        Ok(_) => Ok(()),
        Err(e) => Err(header_error_text(&e)),
    }
}

/// The values under a header after it was set, or added to: set, it has the one
/// value; added to, those that it had and the new ones behind them.
pub proof fn law_header_has_what_is_written(
    head: Head,
    field: HeaderField,
    value: Seq<char>,
    values: Seq<Seq<char>>,
)
    ensures
        head.with(field, value).values(field) == seq![vstd::utf8::encode_utf8(value)],
        head.add_value(field, value).values(field) == head.values(field).push(
            vstd::utf8::encode_utf8(value),
        ),
        head.add_values(field, values).values(field).len() == head.values(field).len()
            + values.len(),
        forall|i: int|
            0 <= i < values.len() ==> #[trigger] head.add_values(field, values).values(
                field,
            )[head.values(field).len() + i] == vstd::utf8::encode_utf8(values[i]),
        head.with(field, value).status == head.status,
        head.add_value(field, value).status == head.status,
        head.add_values(field, values).status == head.status,
{
}

/// A header value is text exactly where each of its bytes is visible ASCII, a
/// space or a tab, and the text is then made of those characters.
pub proof fn law_visible_text(bytes: &Vec<u8>, r: Option<String>)
    requires
        call_ensures(visible_text, (bytes,), r),
    ensures
        r is None <==> exists|i: int|
            0 <= i < bytes@.len() && ((#[trigger] bytes@[i]) < 32 && bytes@[i] != 9 || bytes@[i]
                >= 127),
        r is Some ==> r->0@.len() == bytes@.len(),
        r is Some ==> forall|i: int|
            0 <= i < bytes@.len() ==> (#[trigger] r->0@[i]) as u32 == bytes@[i] as u32,
{
    if r is None {
        let i = choose|i: int| 0 <= i < bytes@.len() && !text_byte(#[trigger] bytes@[i]);
        assert(bytes@[i] < 32 && bytes@[i] != 9 || bytes@[i] >= 127);
    } else {
        assert forall|i: int| 0 <= i < bytes@.len() implies text_byte(#[trigger] bytes@[i]) && (
        r->0@[i]) as u32 == bytes@[i] as u32 by {
            assert(r->0@[i] == bytes@[i] as char);
        }
    }
}

/// A header is sent under its name.
pub proof fn law_names_of_headers(field: HeaderField, r: &'static str)
    requires
        call_ensures(HeaderField::name, (field,), r),
    ensures
        r@ == field.wire_name(),
        field is Allow ==> r@ == "allow"@,
        field is CacheControl ==> r@ == "Cache-Control"@,
        field is ContentLength ==> r@ == "Content-Length"@,
        field is ContentType ==> r@ == "Content-Type"@,
        field is DpopNonce ==> r@ == "DPoP-Nonce"@,
        field is Location ==> r@ == "location"@,
        field is SetCookie ==> r@ == "Set-Cookie"@,
        field is WwwAuthenticate ==> r@ == "www-authenticate"@,
{
}

/// A text can be sent in a header exactly where it holds no control character but
/// tab.
pub proof fn law_header_safe_text(s: Seq<char>)
    ensures
        header_safe(s) <==> forall|i: int|
            0 <= i < s.len() ==> !(((#[trigger] s[i]) as u32) < 32 && s[i] != '\t') && s[i]
                != '\u{7f}',
{
    if header_safe(s) {
        assert forall|i: int| 0 <= i < s.len() implies !(((#[trigger] s[i]) as u32) < 32 && s[i]
            != '\t') && s[i] != '\u{7f}' by {
            lemma_control_char(s[i]);
        }
    } else {
        let i = choose|i: int|
            0 <= i < s.len() && !((#[trigger] s[i]) as u32 >= 32 && s[i] as u32 != 127 || s[i] as u32
                == 9);
        lemma_control_char(s[i]);
    }
}

/// A control character, by its number.
proof fn lemma_control_char(c: char)
    ensures
        (c as u32 >= 32 && c as u32 != 127 || c as u32 == 9) <==> !((c as u32) < 32 && c != '\t')
            && c != '\u{7f}',
{
}

/// An error has the context and the cause that it is given, and no cause where it
/// is given none.
pub proof fn law_response_errors(context: &str, cause: String, a: ResponseError, b: ResponseError)
    requires
        call_ensures(ResponseError::because, (context, cause), a),
        call_ensures(ResponseError::new, (context,), b),
    ensures
        a.context@ == context@,
        a.cause is Some && a.cause->0@ == cause@,
        b.context@ == context@,
        b.cause is None,
{
}

} // verus!
