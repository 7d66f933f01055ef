//! Reconstruction of the client-facing URI for DPoP proof validation.
//!
//! Where a resource identifier is configured, the request path is rewritten to
//! the URI that the client used, so that the `htu` binding of a DPoP proof
//! holds behind a reverse proxy.

use vstd::prelude::*;

use crate::text::{
    law_stripped_prefix_and_rest_make_the_text, law_trailing_characters_are_removed, opt_str,
    opt_text,
};
use crate::uri::{
    append_query, clone_opt, lemma_path_and_query, lemma_rebased, path_and_query, rebase, rebased,
    remove_prefix, unprefixed, with_query, PathAndQuery, Uri, UriView,
};

verus! {

/// The client-facing URI of a request.
///
/// Without a base it is the request URI. With one, it has the scheme and the
/// authority of the base, and the path of the base before the request path
/// (after `strip_prefix`). There is none where the prefix does not match, where
/// the new path and query cannot be read, or where the base has only one of
/// scheme and authority.
pub open spec fn client_uri(
    base: Option<UriView>,
    strip_prefix: Option<Seq<char>>,
    req: UriView,
) -> Option<UriView> {
    match base {
        None => Some(req),
        Some(b) => match unprefixed(req.path, strip_prefix) {
            None => None,
            Some(stripped) => match path_and_query(
                with_query(rebased(b.path, stripped), req.query),
            ) {
                None => None,
                Some((path, query)) => if b.scheme is Some == b.authority is Some {
                    Some(UriView { scheme: b.scheme, authority: b.authority, path, query })
                } else {
                    None
                },
            },
        },
    }
}

/// Reconstructs the client-facing URI for DPoP `htu` matching.
pub fn request_uri(
    base_uri: Option<&Uri>,
    strip_prefix: Option<&str>,
    req_uri: &Uri,
) -> (r: Option<Uri>)
    ensures
        match r {
            Some(u) => client_uri(
                match base_uri {
                    Some(b) => Some(b@),
                    None => None,
                },
                opt_str(strip_prefix),
                req_uri@,
            ) == Some(u@),
            None => client_uri(
                match base_uri {
                    Some(b) => Some(b@),
                    None => None,
                },
                opt_str(strip_prefix),
                req_uri@,
            ) is None,
        },
{
    let base = match base_uri {
        Some(b) => b,
        None => return Some(req_uri.duplicate()),
    };
    let stripped = match remove_prefix(req_uri.path.as_str(), strip_prefix) {
        Some(s) => s,
        None => return None,
    };
    let new_path = rebase(base.path.as_str(), stripped.as_str());
    let target = append_query(new_path.as_str(), &req_uri.query);
    let parsed = match PathAndQuery::parse(target.as_str()) {
        Some(pq) => pq,
        None => return None,
    };
    Uri::from_parts(clone_opt(&base.scheme), clone_opt(&base.authority), parsed)
}

/// The reconstructed URI has the scheme and the authority of the base, the
/// rebased path, and the query of the request, unchanged.
///
/// This holds wherever the prefix matches, the base is absolute with a path that
/// is not `*`, and the result is within the length limit of a URI.
pub proof fn law_request_uri_keeps_path_and_query(
    base: UriView,
    strip_prefix: Option<Seq<char>>,
    req: UriView,
    stripped: Seq<char>,
)
    requires
        base.valid(),
        base.absolute(),
        base.path != seq!['*'],
        req.valid(),
        unprefixed(req.path, strip_prefix) == Some(stripped),
        vstd::utf8::encode_utf8(with_query(rebased(base.path, stripped), req.query)).len() <= 65534,
    ensures
        client_uri(Some(base), strip_prefix, req) == Some(
            (UriView {
                scheme: base.scheme,
                authority: base.authority,
                path: rebased(base.path, stripped),
                query: req.query,
            }),
        ),
{
    lemma_rebased(base, strip_prefix, req);
    lemma_path_and_query(rebased(base.path, stripped), req.query);
}

/// The reconstructed URI of a request is a URI, where the base and the request
/// are.
pub proof fn law_request_uri_is_valid(
    base: Option<UriView>,
    strip_prefix: Option<Seq<char>>,
    req: UriView,
)
    requires
        base is Some ==> base->0.valid(),
        req.valid(),
    ensures
        client_uri(base, strip_prefix, req) is Some ==> client_uri(
            base,
            strip_prefix,
            req,
        )->0.valid(),
{
    if base is Some && unprefixed(req.path, strip_prefix) is Some {
        lemma_rebased(base->0, strip_prefix, req);
        lemma_path_and_query(
            rebased(base->0.path, unprefixed(req.path, strip_prefix)->0),
            req.query,
        );
    }
}

/// Without a base the URI of a request is the request's own. With one, a request
/// whose path does not begin with the configured prefix has none.
pub proof fn law_request_uri_without_base_or_prefix(
    base: Option<&Uri>,
    prefix: Option<&str>,
    req: &Uri,
    r: Option<Uri>,
)
    requires
        call_ensures(request_uri, (base, prefix, req), r),
    ensures
        base is None ==> r is Some && r->0@ == req@,
        base is Some && prefix is Some && !(prefix->0@.len() <= req.path@.len() && req.path@.take(
            prefix->0@.len() as int,
        ) == prefix->0@) ==> r is None,
        base is Some && base->0.scheme is Some && base->0.authority is None ==> r is None,
{
    if prefix is Some {
        law_stripped_prefix_and_rest_make_the_text(req.path@, prefix->0@, Seq::empty());
    }
}

/// Behind a base, a request to the prefix followed by `rest` has the URI with the
/// base's scheme and authority, the base's path and `rest` with one slash
/// between them, and the query of the request.
///
/// This holds wherever the base is absolute with a path that is not `*`, and the
/// result is within the length limit of a URI.
#[verifier::rlimit(30)]
pub proof fn law_request_uri_is_below_the_base(
    base: &Uri,
    root: Seq<char>,
    slashes: Seq<char>,
    prefix: Option<&str>,
    rest: Seq<char>,
    req: &Uri,
    r: Option<Uri>,
)
    requires
        call_ensures(request_uri, (Some(base), prefix, req), r),
        base@.valid(),
        base.scheme is Some,
        base.authority is Some,
        base.path@ != seq!['*'],
        base.path@ == root + slashes,
        root.len() > 0 ==> root.last() != '/',
        forall|i: int| 0 <= i < slashes.len() ==> #[trigger] slashes[i] == '/',
        req@.valid(),
        req.path@ == match prefix {
            Some(p) => p@ + rest,
            None => rest,
        },
        vstd::utf8::encode_utf8(
            root + (if rest.len() > 0 && rest[0] == '/' {
                rest
            } else {
                seq!['/'] + rest
            }) + match req.query {
                Some(q) => seq!['?'] + q@,
                None => Seq::<char>::empty(),
            },
        ).len() <= 65534,
    ensures
        r is Some,
        r->0.scheme is Some && r->0.scheme->0@ == base.scheme->0@,
        r->0.authority is Some && r->0.authority->0@ == base.authority->0@,
        r->0.path@ == root + if rest.len() > 0 && rest[0] == '/' {
            rest
        } else {
            seq!['/'] + rest
        },
        r->0.query is Some <==> req.query is Some,
        req.query is Some ==> r->0.query->0@ == req.query->0@,
{
    reveal_strlit("/");
    reveal_strlit("?");
    assert("/"@ == seq!['/']);
    assert("?"@ == seq!['?']);
    law_trailing_characters_are_removed(root, '/', slashes);
    if prefix is Some {
        law_stripped_prefix_and_rest_make_the_text(req.path@, prefix->0@, rest);
    }
    assert(unprefixed(req.path@, opt_str(prefix)) == Some(rest));
    let path = rebased(base.path@, rest);
    let below = if rest.len() > 0 && rest[0] == '/' {
        rest
    } else {
        seq!['/'] + rest
    };
    assert(path == root + below);
    let tail = match req.query {
        Some(q) => seq!['?'] + q@,
        None => Seq::<char>::empty(),
    };
    assert(with_query(path, opt_text(req.query)) == root + below + tail);
    law_request_uri_keeps_path_and_query(base@, opt_str(prefix), req@, rest);
    assert(opt_text(r->0.query) == opt_text(req.query));
    assert(opt_text(r->0.scheme) == opt_text(base.scheme));
    assert(opt_text(r->0.authority) == opt_text(base.authority));
}

} // verus!
