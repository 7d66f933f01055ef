//! Error page rendering for the login flow.
//!
//! [`ErrorPage`] lets users customise the page shown when the login flow fails.
//! [`DefaultErrorPage`] renders a minimal, self-contained page in which the
//! message is escaped.

use vstd::prelude::*;
use vstd::string::StrSliceExecFns;

use crate::text::{chars_of, decimal, decimal_text, opt_str};

verus! {

/// The rendered content of an error page.
#[derive(Debug)]
pub struct ErrorPageResponse {
    /// The `Content-Type` header value (e.g. `"text/html; charset=utf-8"`).
    pub content_type: &'static str,
    /// The response body.
    pub body: Vec<u8>,
}

/// Renders error pages for the login flow.
pub trait ErrorPage: Send + Sync {
    /// Render an error page for the given HTTP status and human-readable
    /// message.
    fn render(&self, status: u16, message: &str) -> ErrorPageResponse;
}

/// The built-in error page renderer: a minimal, self-contained HTML page with
/// no external resources, in which the message is HTML-escaped.
#[derive(Debug, Clone, Copy)]
pub struct DefaultErrorPage;

/// What precedes the title of the page.
pub const PAGE_START: &'static str = "<!DOCTYPE html><html lang=\"en\"><head><meta charset=\"utf-8\"><meta name=\"viewport\" content=\"width=device-width,initial-scale=1\"><title>";

/// What stands between the title and the heading.
pub const PAGE_STYLE: &'static str = "</title><style>*{margin:0;padding:0;box-sizing:border-box}body{font-family:system-ui,-apple-system,sans-serif;min-height:100vh;display:flex;align-items:center;justify-content:center;background:#f8f9fa;color:#212529}.c{text-align:center;padding:2rem}h1{font-size:4rem;font-weight:700;color:#dee2e6;margin-bottom:.5rem}p{font-size:1.125rem;color:#495057}</style></head><body><div class=\"c\"><h1>";

/// What stands between the heading and the message.
pub const PAGE_MESSAGE: &'static str = "</h1><p>";

/// What follows the message.
pub const PAGE_END: &'static str = "</p></div></body></html>";

/// The standard reason phrase of a status code, if it has one.
pub uninterp spec fn reason_phrase(status: u16) -> Option<Seq<char>>;

/// The standard reason phrase of a status code, if it has one.
///
/// Trusted: `http::StatusCode::canonical_reason`, for the statuses that are
/// status codes. The phrases of the statuses that the login flow answers with
/// are stated.
#[verifier::external_body]
fn canonical_reason(status: u16) -> (r: Option<&'static str>)
    ensures
        opt_str(r) == reason_phrase(status),
        status == 400 ==> opt_str(r) == Some("Bad Request"@),
        status == 401 ==> opt_str(r) == Some("Unauthorized"@),
        status == 403 ==> opt_str(r) == Some("Forbidden"@),
        status == 500 ==> opt_str(r) == Some("Internal Server Error"@),
        status == 502 ==> opt_str(r) == Some("Bad Gateway"@),
{
    http::StatusCode::from_u16(status).ok().and_then(|s| s.canonical_reason())
}

/// A character as it stands in HTML text.
pub open spec fn escaped_char(c: char) -> Seq<char> {
    if c == '&' {
        "&amp;"@
    } else if c == '<' {
        "&lt;"@
    } else if c == '>' {
        "&gt;"@
    } else if c == '"' {
        "&quot;"@
    } else if c == '\'' {
        "&#x27;"@
    } else {
        seq![c]
    }
}

/// A text as it stands in HTML.
pub open spec fn escaped(s: Seq<char>) -> Seq<char>
    decreases s.len(),
{
    if s.len() == 0 {
        Seq::empty()
    } else {
        escaped(s.drop_last()) + escaped_char(s.last())
    }
}

/// Escapes `&`, `<`, `>`, `"`, and `'` for safe inclusion in HTML.
pub fn html_escape(s: &str) -> (r: String)
    ensures
        r@ == escaped(s@),
{
    let v = chars_of(s);
    let mut out = String::new();
    let mut i: usize = 0;
    while i < v.len()
        invariant
            i <= v@.len(),
            v@ == s@,
            out@ == escaped(s@.take(i as int)),
        decreases v@.len() - i,
    {
        let c = v[i];
        proof {
            let done = s@.take(i + 1);
            assert(done.drop_last() == s@.take(i as int));
            assert(done.last() == c);
        }
        match c {
            '&' => out.append("&amp;"),
            '<' => out.append("&lt;"),
            '>' => out.append("&gt;"),
            '"' => out.append("&quot;"),
            '\'' => out.append("&#x27;"),
            _ => {
                let ghost so_far = out@;
                out.push(c);
                assert(so_far.push(c) == so_far + seq![c]);
            },
        }
        i = i + 1;
    }
    assert(s@.take(i as int) == s@);
    out
}

/// The text of the default error page.
pub open spec fn page_text(status: u16, message: Seq<char>) -> Seq<char> {
    let code = decimal(status as nat);
    let reason = match reason_phrase(status) {
        Some(r) => r,
        None => "Error"@,
    };
    PAGE_START@ + code + " "@ + reason + PAGE_STYLE@ + code + PAGE_MESSAGE@ + escaped(message)
        + PAGE_END@
}

impl ErrorPage for DefaultErrorPage {
    fn render(&self, status: u16, message: &str) -> (r: ErrorPageResponse)
        ensures
            r.content_type@ == "text/html; charset=utf-8"@,
            r.body@ == vstd::utf8::encode_utf8(page_text(status, message@)),
    {
        let code = decimal_text(status as usize);
        let reason = match canonical_reason(status) {
            Some(r) => r,
            None => "Error",
        };
        let text = html_escape(message);
        let mut page = PAGE_START.to_owned();
        page.append(code.as_str());
        page.append(" ");
        page.append(reason);
        page.append(PAGE_STYLE);
        page.append(code.as_str());
        page.append(PAGE_MESSAGE);
        page.append(text.as_str());
        page.append(PAGE_END);
        ErrorPageResponse {
            content_type: "text/html; charset=utf-8",
            body: page.as_str().as_bytes_vec(),
        }
    }
}

/// `c` is one of the characters that have a meaning in HTML text.
pub open spec fn special(c: char) -> bool {
    c == '&' || c == '<' || c == '>' || c == '"' || c == '\''
}

/// Escaped text holds no character that could begin or end a tag or an
/// attribute value: no `<`, `>`, `"` or `'`.
pub proof fn law_escaped_text_holds_no_markup(s: Seq<char>)
    ensures
        forall|i: int|
            0 <= i < escaped(s).len() ==> (#[trigger] escaped(s)[i] == '&' || !special(
                escaped(s)[i],
            )),
    decreases s.len(),
{
    reveal_strlit("&amp;");
    reveal_strlit("&lt;");
    reveal_strlit("&gt;");
    reveal_strlit("&quot;");
    reveal_strlit("&#x27;");
    if s.len() > 0 {
        law_escaped_text_holds_no_markup(s.drop_last());
        let start = escaped(s.drop_last());
        let tail = escaped_char(s.last());
        assert forall|i: int| 0 <= i < escaped(s).len() implies (#[trigger] escaped(s)[i] == '&'
            || !special(escaped(s)[i])) by {
            if i < start.len() {
                assert(escaped(s)[i] == start[i]);
            } else {
                assert(escaped(s)[i] == tail[i - start.len()]);
            }
        }
    }
}

/// Text without special characters is left as it is.
pub proof fn law_plain_text_is_not_escaped(s: Seq<char>)
    requires
        forall|i: int| 0 <= i < s.len() ==> !special(#[trigger] s[i]),
    ensures
        escaped(s) == s,
    decreases s.len(),
{
    if s.len() > 0 {
        law_plain_text_is_not_escaped(s.drop_last());
        assert(escaped(s) == s.drop_last() + seq![s.last()]);
        assert(s == s.drop_last() + seq![s.last()]);
    }
}

/// Text is escaped character by character, in order.
pub proof fn law_escaping_goes_on_in_order(
    a: &str,
    b: &str,
    both: &str,
    x: String,
    y: String,
    r: String,
)
    requires
        both@ == a@ + b@,
        call_ensures(html_escape, (a,), x),
        call_ensures(html_escape, (b,), y),
        call_ensures(html_escape, (both,), r),
    ensures
        r@ == x@ + y@,
{
    lemma_escaped_concat(a@, b@);
}

proof fn lemma_escaped_concat(a: Seq<char>, b: Seq<char>)
    ensures
        escaped(a + b) == escaped(a) + escaped(b),
    decreases b.len(),
{
    if b.len() == 0 {
        assert(a + b == a);
        assert(escaped(a) + Seq::<char>::empty() == escaped(a));
    } else {
        lemma_escaped_concat(a, b.drop_last());
        assert((a + b).drop_last() == a + b.drop_last());
        assert((a + b).last() == b.last());
        assert(escaped(a) + escaped(b.drop_last()) + escaped_char(b.last()) == escaped(a) + (
        escaped(b.drop_last()) + escaped_char(b.last())));
    }
}

/// How a single character is escaped.
pub proof fn law_characters_are_escaped(c: char, s: &str, r: String)
    requires
        s@ == seq![c],
        call_ensures(html_escape, (s,), r),
    ensures
        c == '&' ==> r@ == "&amp;"@,
        c == '<' ==> r@ == "&lt;"@,
        c == '>' ==> r@ == "&gt;"@,
        c == '"' ==> r@ == "&quot;"@,
        c == '\'' ==> r@ == "&#x27;"@,
        c != '&' && c != '<' && c != '>' && c != '"' && c != '\'' ==> r@ == s@,
{
    let none = Seq::<char>::empty();
    assert(s@.drop_last() == none);
    assert(escaped(none) == none);
    assert(none + escaped_char(c) == escaped_char(c));
}

/// The default page is HTML, names the status with its reason, and holds the
/// message in escaped form as its only paragraph.
pub proof fn law_default_page_shows_the_message(
    page: &DefaultErrorPage,
    status: u16,
    message: &str,
    code: String,
    shown: String,
    r: ErrorPageResponse,
)
    requires
        call_ensures(decimal_text, (status as usize,), code),
        call_ensures(html_escape, (message,), shown),
        call_ensures(<DefaultErrorPage as ErrorPage>::render, (page, status, message), r),
    ensures
        r.content_type@ == "text/html; charset=utf-8"@,
        r.body@ == vstd::utf8::encode_utf8(
            PAGE_START@ + code@ + " "@ + (match reason_phrase(status) {
                Some(phrase) => phrase,
                None => "Error"@,
            }) + PAGE_STYLE@ + code@ + "</h1><p>"@ + shown@ + "</p></div></body></html>"@,
        ),
{
}

} // verus!
