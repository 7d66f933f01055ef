//! Response heads of the resource server: challenges (RFC 6750), resource
//! metadata (RFC 9728), and 405 Method Not Allowed.

use vstd::prelude::*;

use crate::headers::{
    add_value, bad_append_text, bad_insert_text, bad_status_text, encoded, head_of, header_safe,
    lemma_add_values_push, lemma_keys_distinct, only_new, put_header, response_fields,
    response_names, response_status, start_response, takes, Head, HeaderField, ResponseError,
    MAX_HEADER_NAMES,
};
use crate::text::{decimal, decimal_text, opt_str, texts};

verus! {

/// Every challenge is fit for a header.
pub open spec fn all_safe(values: Seq<Seq<char>>) -> bool {
    forall|i: int| 0 <= i < values.len() ==> header_safe(#[trigger] values[i])
}

/// The head of a resource metadata response.
pub open spec fn metadata_head(length: nat) -> Head {
    Head::new(200).with(HeaderField::ContentType, "application/json"@).with(
        HeaderField::ContentLength,
        decimal(length),
    ).with(HeaderField::CacheControl, "max-age=3600"@)
}

/// The head of the RFC 9728 protected resource metadata response: JSON of the
/// given length, cacheable for an hour.
pub fn resource_metadata_head(length: usize) -> (r: Result<
    pingora_http::ResponseHeader,
    ResponseError,
>)
    ensures
        r is Ok,
        r matches Ok(h) ==> head_of(h) == metadata_head(length as nat),
{
    let digits = decimal_text(length);
    proof {
        reveal_strlit("application/json");
        reveal_strlit("max-age=3600");
        crate::login::cookie_session::lemma_decimal_safe(length as nat);
    }
    let mut resp = match start_response(200, "failed to build response header") {
        Ok(h) => h,
        Err(e) => return Err(e),
    };
    if let Err(e) = put_header(
        &mut resp,
        HeaderField::ContentType,
        "application/json",
        "failed to set content-type header",
    ) {
        return Err(e);
    }
    if let Err(e) = put_header(
        &mut resp,
        HeaderField::ContentLength,
        digits.as_str(),
        "failed to set content-length header",
    ) {
        return Err(e);
    }
    if let Err(e) = put_header(
        &mut resp,
        HeaderField::CacheControl,
        "max-age=3600",
        "failed to set cache-control header",
    ) {
        return Err(e);
    }
    Ok(resp)
}

/// `head` with a nonce, where there is one.
pub open spec fn with_nonce(head: Head, nonce: Option<Seq<char>>) -> Head {
    match nonce {
        Some(n) => head.with(HeaderField::DpopNonce, n),
        None => head,
    }
}

/// `head` without a body, not to be cached.
pub open spec fn without_body(head: Head) -> Head {
    head.with(HeaderField::ContentLength, "0"@).with(HeaderField::CacheControl, "no-store"@)
}

/// The head of a challenge response.
pub open spec fn challenge_response(
    status: u16,
    challenges: Seq<Seq<char>>,
    nonce: Option<Seq<char>>,
) -> Head {
    without_body(
        with_nonce(
            Head::new(status).add_values(HeaderField::WwwAuthenticate, challenges),
            nonce,
        ),
    )
}

/// A challenge response can be sent: a status code, and challenges and nonce
/// that are fit for a header.
pub open spec fn sendable(status: u16, challenges: Seq<Seq<char>>, nonce: Option<Seq<char>>) -> bool {
    100 <= status <= 999 && all_safe(challenges) && (nonce is Some ==> header_safe(nonce->0))
}

/// The error says what first kept a challenge response from being made.
pub open spec fn challenge_fault(e: ResponseError, status: u16, challenges: Seq<Seq<char>>) -> bool {
    if !(100 <= status <= 999) {
        e.says("failed to build response header"@, Some(bad_status_text()))
    } else if !all_safe(challenges) {
        e.says("failed to append WWW-Authenticate header"@, Some(bad_append_text()))
    } else {
        e.says("failed to set DPoP-Nonce header"@, Some(bad_insert_text()))
    }
}

/// Sets the headers of a response without a body.
fn finish_empty(response: &mut pingora_http::ResponseHeader) -> (r: Result<(), ResponseError>)
    requires
        response_names(*old(response)) + 2 <= MAX_HEADER_NAMES,
    ensures
        r is Ok,
        head_of(*final(response)) == without_body(head_of(*old(response))),
{
    proof {
        reveal_strlit("0");
        reveal_strlit("no-store");
    }
    if let Err(e) = put_header(
        response,
        HeaderField::ContentLength,
        "0",
        "failed to set content-length header",
    ) {
        return Err(e);
    }
    put_header(
        response,
        HeaderField::CacheControl,
        "no-store",
        "failed to set cache-control header",
    )
}

/// The head of an RFC 6750 challenge response: each challenge is appended as a
/// `WWW-Authenticate` header, and the nonce is set where there is one.
pub fn challenge_head(status: u16, challenges: &Vec<String>, dpop_nonce: Option<&str>) -> (r: Result<
    pingora_http::ResponseHeader,
    ResponseError,
>)
    ensures
        r is Ok == sendable(status, texts(challenges@), opt_str(dpop_nonce)),
        r matches Ok(h) ==> head_of(h) == challenge_response(
            status,
            texts(challenges@),
            opt_str(dpop_nonce),
        ),
        r matches Err(e) ==> challenge_fault(e, status, texts(challenges@)),
{
    let mut resp = match start_response(status, "failed to build response header") {
        Ok(h) => h,
        Err(e) => return Err(e),
    };
    let ghost blank = resp;
    let ghost first = head_of(resp);
    let ghost values = texts(challenges@);
    let mut i: usize = 0;
    assert(first.add_values(HeaderField::WwwAuthenticate, values.take(0)) == first);
    while i < challenges.len()
        invariant
            i <= challenges@.len(),
            100 <= status <= 999,
            values == texts(challenges@),
            first == Head::new(status),
            head_of(resp) == first.add_values(HeaderField::WwwAuthenticate, values.take(i as int)),
            response_names(resp) <= 1,
            takes(resp, HeaderField::WwwAuthenticate),
            only_new(blank, resp, HeaderField::WwwAuthenticate),
            response_names(blank) == 0,
            forall|k: int| 0 <= k < i ==> header_safe(#[trigger] values[k]),
        decreases challenges@.len() - i,
    {
        proof {
            assert(values[i as int] == challenges@[i as int]@);
            lemma_add_values_push(
                first,
                HeaderField::WwwAuthenticate,
                values.take(i as int),
                values[i as int],
            );
            assert(values.take(i as int).push(values[i as int]) == values.take(i + 1));
        }
        if let Err(cause) = add_value(
            &mut resp,
            HeaderField::WwwAuthenticate,
            challenges[i].as_str(),
        ) {
            return Err(
                ResponseError::because("failed to append WWW-Authenticate header", cause),
            );
        }
        i = i + 1;
    }
    assert(values.take(i as int) == values);
    if let Some(nonce) = dpop_nonce {
        if let Err(e) = put_header(
            &mut resp,
            HeaderField::DpopNonce,
            nonce,
            "failed to set DPoP-Nonce header",
        ) {
            return Err(e);
        }
    }
    if let Err(e) = finish_empty(&mut resp) {
        return Err(e);
    }
    Ok(resp)
}

/// The head of a 405 response.
pub open spec fn not_allowed_response(allow: Seq<char>) -> Head {
    without_body(Head::new(405).with(HeaderField::Allow, allow))
}

/// The head of a 405 Method Not Allowed response with an `Allow` header.
pub fn method_not_allowed_head(allow: &str) -> (r: Result<
    pingora_http::ResponseHeader,
    ResponseError,
>)
    ensures
        r is Ok == header_safe(allow@),
        r matches Ok(h) ==> head_of(h) == not_allowed_response(allow@),
        r matches Err(e) ==> e.says("failed to set Allow header"@, Some(bad_insert_text())),
{
    let mut resp = match start_response(405, "failed to build response header") {
        Ok(h) => h,
        Err(e) => return Err(e),
    };
    if let Err(e) = put_header(
        &mut resp,
        HeaderField::Allow,
        allow,
        "failed to set Allow header",
    ) {
        return Err(e);
    }
    if let Err(e) = finish_empty(&mut resp) {
        return Err(e);
    }
    Ok(resp)
}

// ── Laws ─────────────────────────────────────────────────────────────────────

/// A response that denies has the status, every challenge as a value of
/// `WWW-Authenticate`, in order, the nonce where there is one, no body, and is not
/// to be cached; it has no other header. It cannot be made exactly where the
/// status is none, or a challenge or the nonce is not fit for a header.
#[verifier::rlimit(30)]
pub proof fn law_challenge_response(
    status: u16,
    challenges: &Vec<String>,
    nonce: Option<&str>,
    r: Result<pingora_http::ResponseHeader, ResponseError>,
)
    requires
        call_ensures(challenge_head, (status, challenges, nonce), r),
    ensures
        r is Ok <==> 100 <= status <= 999 && (forall|i: int|
            0 <= i < challenges@.len() ==> header_safe((#[trigger] challenges@[i])@)) && (
        nonce is Some ==> header_safe(nonce->0@)),
        r is Err ==> r->Err_0.context@ == if status < 100 || status > 999 {
            "failed to build response header"@
        } else if exists|i: int|
            0 <= i < challenges@.len() && !header_safe((#[trigger] challenges@[i])@) {
            "failed to append WWW-Authenticate header"@
        } else {
            "failed to set DPoP-Nonce header"@
        },
        r is Err ==> r->Err_0.cause is Some && r->Err_0.cause->0@ == if status < 100 || status
            > 999 {
            " InvalidHTTPHeader context: invalid status"@
        } else if exists|i: int|
            0 <= i < challenges@.len() && !header_safe((#[trigger] challenges@[i])@) {
            " InvalidHTTPHeader context: invalid value while append"@
        } else {
            " InvalidHTTPHeader context: invalid value while insert"@
        },
        r is Ok ==> response_status(r->Ok_0) == status,
        r is Ok ==> ({
            let fields = response_fields(r->Ok_0);
            &&& fields.dom().contains("www-authenticate"@) <==> challenges@.len() > 0
            &&& challenges@.len() > 0 ==> fields["www-authenticate"@] == Seq::new(
                challenges@.len(),
                |i: int| vstd::utf8::encode_utf8(challenges@[i]@),
            )
            &&& fields.dom().contains("dpop-nonce"@) <==> nonce is Some
            &&& nonce is Some ==> fields["dpop-nonce"@] == seq![vstd::utf8::encode_utf8(nonce->0@)]
            &&& fields.dom().contains("content-length"@)
            &&& fields["content-length"@] == seq![vstd::utf8::encode_utf8("0"@)]
            &&& fields.dom().contains("cache-control"@)
            &&& fields["cache-control"@] == seq![vstd::utf8::encode_utf8("no-store"@)]
            &&& forall|name: Seq<char>| #[trigger]
                fields.dom().contains(name) ==> name == "www-authenticate"@ || name
                    == "dpop-nonce"@ || name == "content-length"@ || name == "cache-control"@
        }),
{
    let values = texts(challenges@);
    assert(all_safe(values) <==> forall|i: int|
        0 <= i < challenges@.len() ==> header_safe((#[trigger] challenges@[i])@)) by {
        if all_safe(values) {
            assert forall|i: int| 0 <= i < challenges@.len() implies header_safe(
                (#[trigger] challenges@[i])@,
            ) by {
                assert(header_safe(values[i]));
            }
        }
    }
    if r is Ok {
        lemma_keys_distinct();
        let fields = response_fields(r->Ok_0);
        let none = Seq::<Seq<u8>>::empty();
        if challenges@.len() > 0 {
            assert(none + encoded(values) == Seq::new(
                challenges@.len(),
                |i: int| vstd::utf8::encode_utf8(challenges@[i]@),
            ));
        }
        assert(HeaderField::WwwAuthenticate.key() != HeaderField::DpopNonce.key());
        assert(HeaderField::WwwAuthenticate.key() != HeaderField::ContentLength.key());
        assert(HeaderField::WwwAuthenticate.key() != HeaderField::CacheControl.key());
        assert(HeaderField::DpopNonce.key() != HeaderField::ContentLength.key());
        assert(HeaderField::DpopNonce.key() != HeaderField::CacheControl.key());
        assert(HeaderField::ContentLength.key() != HeaderField::CacheControl.key());
    }
}

/// The metadata document is sent as JSON with its length, and may be cached for
/// an hour.
pub proof fn law_metadata_response(
    length: usize,
    digits: String,
    r: Result<pingora_http::ResponseHeader, ResponseError>,
)
    requires
        call_ensures(decimal_text, (length,), digits),
        call_ensures(resource_metadata_head, (length,), r),
    ensures
        r is Ok,
        response_status(r->Ok_0) == 200,
        response_fields(r->Ok_0) == map![
            "content-type"@ => seq![vstd::utf8::encode_utf8("application/json"@)],
            "content-length"@ => seq![vstd::utf8::encode_utf8(digits@)],
            "cache-control"@ => seq![vstd::utf8::encode_utf8("max-age=3600"@)]
        ],
{
    assert(response_fields(r->Ok_0) =~= map![
        "content-type"@ => seq![vstd::utf8::encode_utf8("application/json"@)],
        "content-length"@ => seq![vstd::utf8::encode_utf8(digits@)],
        "cache-control"@ => seq![vstd::utf8::encode_utf8("max-age=3600"@)]
    ]);
}

/// A method that is not allowed is answered with 405 and the methods that are.
pub proof fn law_not_allowed_response(
    allow: &str,
    r: Result<pingora_http::ResponseHeader, ResponseError>,
)
    requires
        call_ensures(method_not_allowed_head, (allow,), r),
    ensures
        r is Ok <==> header_safe(allow@),
        r is Err ==> r->Err_0.context@ == "failed to set Allow header"@,
        r is Err ==> r->Err_0.cause is Some && r->Err_0.cause->0@
            == " InvalidHTTPHeader context: invalid value while insert"@,
        r is Ok ==> response_status(r->Ok_0) == 405,
        r is Ok ==> response_fields(r->Ok_0) == map![
            "allow"@ => seq![vstd::utf8::encode_utf8(allow@)],
            "content-length"@ => seq![vstd::utf8::encode_utf8("0"@)],
            "cache-control"@ => seq![vstd::utf8::encode_utf8("no-store"@)]
        ],
{
    if r is Ok {
        assert(response_fields(r->Ok_0) =~= map![
            "allow"@ => seq![vstd::utf8::encode_utf8(allow@)],
            "content-length"@ => seq![vstd::utf8::encode_utf8("0"@)],
            "cache-control"@ => seq![vstd::utf8::encode_utf8("no-store"@)]
        ]);
    }
}

} // verus!
