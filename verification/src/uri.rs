//! URIs as plain values.
//!
//! [`Uri`] holds the parts of an `http::Uri` that the library reads: the
//! scheme, the authority, the path and the query.

use vstd::prelude::*;

use crate::text::{
    after, before, cat, cat3, law_stripped_prefix_and_rest_make_the_text,
    law_trailing_characters_are_removed, lemma_find_is, opt_str, opt_text, starts_with_char,
    strip_prefix, strip_text, trim_end_of, trimmed_end_of,
};

verus! {

/// The parts of a URI.
///
/// `path` is what `http::Uri::path` returns and `query` what
/// `http::Uri::query` returns.
#[derive(Debug)]
pub struct Uri {
    /// The scheme (`"https"`), if the URI has one.
    pub scheme: Option<String>,
    /// The authority (`"app.example.com:8443"`), if the URI has one.
    pub authority: Option<String>,
    /// The path (`"/a/b"`).
    pub path: String,
    /// What follows the first `?`, if there is one.
    pub query: Option<String>,
}

/// The model of a [`Uri`].
#[verifier::ext_equal]
pub struct UriView {
    pub scheme: Option<Seq<char>>,
    pub authority: Option<Seq<char>>,
    pub path: Seq<char>,
    pub query: Option<Seq<char>>,
}

impl View for Uri {
    type V = UriView;

    open spec fn view(&self) -> UriView {
        UriView {
            scheme: opt_text(self.scheme),
            authority: opt_text(self.authority),
            path: self.path@,
            query: opt_text(self.query),
        }
    }
}

/// `text` followed by `?query` where there is a query.
pub open spec fn with_query(text: Seq<char>, query: Option<Seq<char>>) -> Seq<char> {
    match query {
        Some(q) => text + "?"@ + q,
        None => text,
    }
}

impl UriView {
    /// The textual form of the URI.
    pub open spec fn text(self) -> Seq<char> {
        let start = match self.scheme {
            Some(s) => s + "://"@,
            None => Seq::empty(),
        };
        let host = match self.authority {
            Some(a) => a,
            None => Seq::empty(),
        };
        with_query(start + host + self.path, self.query)
    }
}

/// A copy of an optional string.
pub fn clone_opt(o: &Option<String>) -> (r: Option<String>)
    ensures
        r == *o,
{
    match o {
        Some(s) => Some(s.clone()),
        None => None,
    }
}

/// `text` followed by `?query` where there is a query.
pub fn append_query(text: &str, query: &Option<String>) -> (r: String)
    ensures
        r@ == with_query(text@, opt_text(*query)),
{
    match query {
        Some(q) => {
            let mut out = cat(text, "?");
            out.append(q.as_str());
            out
        },
        None => text.to_owned(),
    }
}

impl Uri {
    /// A copy of this URI.
    pub fn duplicate(&self) -> (r: Self)
        ensures
            r == *self,
    {
        Uri {
            scheme: clone_opt(&self.scheme),
            authority: clone_opt(&self.authority),
            path: self.path.clone(),
            query: clone_opt(&self.query),
        }
    }

    /// The textual form: `scheme://authority/path?query`, without the parts
    /// that are absent.
    pub fn text(&self) -> (r: String)
        ensures
            r@ == self@.text(),
    {
        let mut out = String::new();
        if let Some(s) = &self.scheme {
            out.append(s.as_str());
            out.append("://");
        }
        if let Some(a) = &self.authority {
            out.append(a.as_str());
        }
        out.append(self.path.as_str());
        append_query(out.as_str(), &self.query)
    }

    /// A URI of a path and query under a scheme and an authority.
    ///
    /// Fails where only one of scheme and authority is present: such a
    /// combination is no URI.
    pub fn from_parts(
        scheme: Option<String>,
        authority: Option<String>,
        path_and_query: PathAndQuery,
    ) -> (r: Option<Uri>)
        ensures
            match r {
                Some(u) => {
                    &&& scheme is Some == authority is Some
                    &&& u.scheme == scheme
                    &&& u.authority == authority
                    &&& u.path == path_and_query.path
                    &&& u.query == path_and_query.query
                },
                None => scheme is Some != authority is Some,
            },
    {
        if scheme.is_some() != authority.is_some() {
            return None;
        }
        Some(Uri { scheme, authority, path: path_and_query.path, query: path_and_query.query })
    }
}

/// A path and an optional query.
#[derive(Debug)]
pub struct PathAndQuery {
    pub path: String,
    pub query: Option<String>,
}

/// The characters that may stand in a path: those that need no percent
/// encoding, the double quote and the braces, and everything beyond ASCII.
pub open spec fn path_char(c: char) -> bool {
    let n = c as u32;
    ||| 0x21 <= n <= 0x22
    ||| 0x24 <= n <= 0x3b
    ||| n == 0x3d
    ||| 0x40 <= n <= 0x5f
    ||| 0x61 <= n <= 0x7e
    ||| n >= 0x80
}

/// The characters that may stand in a query.
pub open spec fn query_char(c: char) -> bool {
    let n = c as u32;
    ||| n == 0x21
    ||| 0x24 <= n <= 0x3b
    ||| n == 0x3d
    ||| 0x3f <= n <= 0x7e
    ||| n >= 0x80
}

/// Every character of `s` satisfies the path grammar.
pub open spec fn path_text(s: Seq<char>) -> bool {
    forall|i: int| 0 <= i < s.len() ==> path_char(#[trigger] s[i])
}

/// Every character of `s` satisfies the query grammar.
pub open spec fn query_text(s: Seq<char>) -> bool {
    forall|i: int| 0 <= i < s.len() ==> query_char(#[trigger] s[i])
}

/// How a request target is read as a path and query: a fragment is dropped, an
/// empty path reads as `/`.
pub open spec fn path_and_query(s: Seq<char>) -> Option<(Seq<char>, Option<Seq<char>>)> {
    let body = before(s, '#');
    let path = before(body, '?');
    let query = after(body, '?');
    if s.len() == 0 || vstd::utf8::encode_utf8(s).len() > 65534 {
        None
    } else if s == seq!['*'] {
        Some((s, None))
    } else if s[0] != '/' && s[0] != '?' && s[0] != '#' {
        None
    } else if !path_text(path) || (query is Some && !query_text(query->0)) {
        None
    } else if path.len() == 0 {
        Some((seq!['/'], query))
    } else {
        Some((path, query))
    }
}

impl PathAndQuery {
    /// Reads a path and query.
    ///
    /// Trusted: `http::uri::PathAndQuery::from_str`, then `path` and `query`
    /// of the result. It accepts texts of at most 65534 bytes that begin with
    /// `/`, `?` or `#` (or are `*`), drops a fragment, and splits at the first
    /// `?`; the characters before and after it must be path and query
    /// characters.
    #[verifier::external_body]
    pub(crate) fn parse(s: &str) -> (r: Option<PathAndQuery>)
        ensures
            match r {
                Some(pq) => path_and_query(s@) == Some((pq.path@, opt_text(pq.query))),
                None => path_and_query(s@) is None,
            },
    {
        let parsed: http::uri::PathAndQuery = s.parse().ok()?;
        Some(PathAndQuery {
            path: parsed.path().to_owned(),
            query: parsed.query().map(str::to_owned),
        })
    }
}

impl UriView {
    /// The parts are those of a URI: the path and the query are made of the
    /// characters that may stand there, a path that is not empty begins with
    /// `/` or is `*`, and a scheme comes with an authority.
    pub open spec fn valid(self) -> bool {
        &&& path_text(self.path)
        &&& self.query is Some ==> query_text(self.query->0)
        &&& self.path.len() == 0 || self.path[0] == '/' || self.path == seq!['*']
        &&& self.scheme is Some ==> self.authority is Some
    }

    /// The URI has a scheme and an authority.
    pub open spec fn absolute(self) -> bool {
        self.scheme is Some && self.authority is Some
    }
}

/// A path and a query are read back from their text. The text is refused only
/// where the path does not begin with `/` or the text is too long.
pub proof fn lemma_path_and_query(path: Seq<char>, query: Option<Seq<char>>)
    requires
        path_text(path),
        path.len() > 0,
        path != seq!['*'],
        query is Some ==> query_text(query->0),
    ensures
        path_and_query(with_query(path, query)) == if path[0] == '/' && vstd::utf8::encode_utf8(
            with_query(path, query),
        ).len() <= 65534 {
            Some((path, query))
        } else {
            None
        },
{
    let target = with_query(path, query);
    reveal_strlit("?");
    assert forall|i: int| 0 <= i < path.len() implies path[i] != '#' && path[i] != '?' by {
        assert(path_char(path[i]));
    }
    match query {
        Some(q) => {
            assert forall|i: int| 0 <= i < q.len() implies q[i] != '#' by {
                assert(query_char(q[i]));
            }
            assert forall|i: int| 0 <= i < target.len() implies target[i] != '#' by {
                if i < path.len() {
                    assert(target[i] == path[i]);
                } else if i > path.len() {
                    assert(target[i] == q[i - path.len() - 1]);
                }
            }
            lemma_find_is(target, '#', target.len() as int);
            assert(target.subrange(0, target.len() as int) == target);
            assert(target[path.len() as int] == '?');
            assert forall|i: int| 0 <= i < path.len() implies target[i] != '?' by {
                assert(target[i] == path[i]);
            }
            lemma_find_is(target, '?', path.len() as int);
            assert(target.subrange(0, path.len() as int) == path);
            assert(target.subrange(path.len() as int + 1, target.len() as int) == q);
            assert(target.len() >= 2);
        },
        None => {
            lemma_find_is(target, '#', target.len() as int);
            lemma_find_is(target, '?', target.len() as int);
            assert(target.subrange(0, target.len() as int) == target);
        },
    }
    assert(target[0] == path[0]);
    assert(target != seq!['*']) by {
        assert(seq!['*'].len() == 1);
    }
}

/// Trimming leaves a beginning of the text.
proof fn lemma_trim_end_of(s: Seq<char>, c: char)
    ensures
        trim_end_of(s, c).is_prefix_of(s),
    decreases s.len(),
{
    if s.len() > 0 && s.last() == c {
        lemma_trim_end_of(s.drop_last(), c);
    }
}

/// A request path below the path of a base URL, both of them valid, is a path,
/// and begins with `/` where that of the base does or is empty.
pub proof fn lemma_rebased(base: UriView, strip_prefix: Option<Seq<char>>, req: UriView)
    requires
        base.valid(),
        req.valid(),
        unprefixed(req.path, strip_prefix) is Some,
    ensures
        ({
            let path = rebased(base.path, unprefixed(req.path, strip_prefix)->0);
            &&& path_text(path)
            &&& path.len() > 0
            &&& path != seq!['*']
            &&& base.path != seq!['*'] ==> path[0] == '/'
        }),
{
    reveal_strlit("/");
    let stripped = unprefixed(req.path, strip_prefix)->0;
    let root = trim_end_of(base.path, '/');
    let path = rebased(base.path, stripped);
    lemma_trim_end_of(base.path, '/');
    let skip = req.path.len() - stripped.len();
    assert forall|i: int| 0 <= i < stripped.len() implies path_char(#[trigger] stripped[i]) by {
        assert(stripped[i] == req.path[i + skip]);
    }
    assert forall|i: int| 0 <= i < root.len() implies path_char(#[trigger] root[i]) by {
        assert(root[i] == base.path[i]);
    }
    let gap: int = path.len() - root.len() - stripped.len();
    assert(path_char('/'));
    assert forall|i: int| 0 <= i < path.len() implies path_char(#[trigger] path[i]) by {
        if i < root.len() {
            assert(path[i] == root[i]);
        } else if i >= root.len() + gap {
            assert(path[i] == stripped[i - root.len() - gap]);
        }
    }
    assert(path[root.len() as int] == '/');
    if root.len() > 0 {
        assert(path[0] == base.path[0]);
        assert(path.len() > 1);
    }
}

/// `path` below `base`: the trailing slashes of `base` are dropped, and one
/// slash separates the two where `path` brings none.
pub open spec fn rebased(base: Seq<char>, path: Seq<char>) -> Seq<char> {
    if path.len() > 0 && path[0] == '/' {
        trim_end_of(base, '/') + path
    } else {
        trim_end_of(base, '/') + "/"@ + path
    }
}

/// `path` without a prefix that a front proxy has added. Without such a prefix
/// configured it is the path itself.
pub open spec fn unprefixed(path: Seq<char>, prefix: Option<Seq<char>>) -> Option<Seq<char>> {
    match prefix {
        Some(p) => strip_prefix(path, p),
        None => Some(path),
    }
}

/// `path` below `base`.
pub fn rebase(base: &str, path: &str) -> (r: String)
    ensures
        r@ == rebased(base@, path@),
{
    let root = trimmed_end_of(base, '/');
    if starts_with_char(path, '/') {
        cat(root.as_str(), path)
    } else {
        cat3(root.as_str(), "/", path)
    }
}

/// `path` without a configured prefix; `None` where the prefix does not match.
pub fn remove_prefix(path: &str, prefix: Option<&str>) -> (r: Option<String>)
    ensures
        opt_text(r) == unprefixed(path@, opt_str(prefix)),
{
    match prefix {
        Some(p) => strip_text(path, p),
        None => Some(path.to_owned()),
    }
}

// ── Laws ─────────────────────────────────────────────────────────────────────

/// The textual form of an absolute URI, and of one that is only a path: the
/// parts in order, the query behind `?`.
pub proof fn law_text_of_a_uri(uri: &Uri, r: String)
    requires
        call_ensures(Uri::text, (uri,), r),
    ensures
        uri.scheme is Some && uri.authority is Some && uri.query is Some ==> r@ == uri.scheme->0@
            + "://"@ + uri.authority->0@ + uri.path@ + "?"@ + uri.query->0@,
        uri.scheme is Some && uri.authority is Some && uri.query is None ==> r@ == uri.scheme->0@
            + "://"@ + uri.authority->0@ + uri.path@,
        uri.scheme is None && uri.authority is None && uri.query is Some ==> r@ == uri.path@ + "?"@
            + uri.query->0@,
        uri.scheme is None && uri.authority is None && uri.query is None ==> r@ == uri.path@,
        uri.scheme is None && uri.authority is Some && uri.query is None ==> r@
            == uri.authority->0@ + uri.path@,
{
    let none = Seq::<char>::empty();
    assert(none + none + uri.path@ == uri.path@);
    if uri.authority is Some {
        assert(none + uri.authority->0@ == uri.authority->0@);
    }
}

/// A path below a base has exactly one slash between the two: whatever slashes
/// the base ends with, and whether or not the path begins with one.
pub proof fn law_one_slash_between_base_and_path(
    base: &str,
    root: Seq<char>,
    slashes: Seq<char>,
    path: &str,
    r: String,
)
    requires
        call_ensures(rebase, (base, path), r),
        base@ == root + slashes,
        root.len() > 0 ==> root.last() != '/',
        forall|i: int| 0 <= i < slashes.len() ==> #[trigger] slashes[i] == '/',
    ensures
        path@.len() > 0 && path@[0] == '/' ==> r@ == root + path@,
        !(path@.len() > 0 && path@[0] == '/') ==> r@ == root + seq!['/'] + path@,
{
    reveal_strlit("/");
    assert("/"@ == seq!['/']);
    law_trailing_characters_are_removed(root, '/', slashes);
}

/// A configured prefix is taken off the paths that begin with it, and off no
/// other; without one, a path stays as it is.
pub proof fn law_prefix_is_taken_off(path: &str, prefix: Option<&str>, r: Option<String>)
    requires
        call_ensures(remove_prefix, (path, prefix), r),
    ensures
        prefix is None ==> r is Some && r->0@ == path@,
        prefix is Some && r is Some ==> path@ == prefix->0@ + r->0@,
        prefix is Some ==> (r is Some <==> prefix->0@.len() <= path@.len() && path@.take(
            prefix->0@.len() as int,
        ) == prefix->0@),
{
    if prefix is Some {
        let rest = if r is Some {
            r->0@
        } else {
            Seq::empty()
        };
        law_stripped_prefix_and_rest_make_the_text(path@, prefix->0@, rest);
    }
}

/// A URI is put together from a path and query exactly where scheme and authority
/// are both there or both absent, and keeps what it is made of.
pub proof fn law_uri_is_made_of_its_parts(
    scheme: Option<String>,
    authority: Option<String>,
    target: PathAndQuery,
    r: Option<Uri>,
)
    requires
        call_ensures(Uri::from_parts, (scheme, authority, target), r),
    ensures
        r is Some <==> (scheme is Some <==> authority is Some),
        r is Some ==> r->0 == (Uri {
            scheme,
            authority,
            path: target.path,
            query: target.query,
        }),
{
}

} // verus!
