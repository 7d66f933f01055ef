//! The decisions of the resource server proxy.

use vstd::prelude::*;

use crate::headers::{
    bad_insert_text, head_of, header_safe, lower_case_name, put_header, remove_header,
    request_fields, response_fields, response_names, response_status, HeaderField, ResponseError,
    MAX_HEADER_NAMES,
};
use crate::json::json_text;
use crate::resource::ctx::HasAuthState;
use crate::resource::error::ConfigError;
use crate::resource::guard::{metadata_document, well_known_path, Guard};
use crate::resource::outcome::Outcome;
use crate::resource::response::{challenge_fault, challenge_head, challenge_response, sendable};
use crate::text::{opt_str, opt_text, same, texts};

verus! {

/// The resource metadata endpoint: its path and the JSON document.
#[derive(Debug)]
pub struct MetadataEndpoint {
    /// The well-known path.
    pub path: String,
    /// The JSON document.
    pub body: Vec<u8>,
}

/// The metadata endpoint of a guard, where it is enabled.
pub fn metadata_endpoint<C>(guard: &Guard<C>, enabled: bool) -> (r: Result<
    Option<MetadataEndpoint>,
    ConfigError,
>)
    ensures
        r is Ok,
        r matches Ok(e) ==> (e is Some == enabled) && (e matches Some(m) ==> m.path@
            == well_known_path(guard.base()) && m.body@ == json_text(
            metadata_document(guard.metadata()@, guard.scopes()),
        )),
{
    if !enabled {
        return Ok(None);
    }
    match guard.resource_metadata() {
        Ok((path, body)) => Ok(Some(MetadataEndpoint { path, body })),
        Err(e) => Err(e),
    }
}

/// Where a request goes.
#[derive(Debug, Clone, Copy, PartialEq, Eq, Structural)]
pub enum Entry {
    /// The metadata document is served.
    Metadata,
    /// The metadata endpoint does not take this method.
    MethodNotAllowed,
    /// The request is checked by the guard.
    Check,
}

/// Where a request goes: the metadata endpoint, where there is one, takes `GET`
/// and `HEAD` on its path; everything else is checked.
pub open spec fn entry(endpoint: Option<Seq<char>>, path: Seq<char>, method: Seq<char>) -> Entry {
    if endpoint == Some(path) {
        if method == "GET"@ || method == "HEAD"@ {
            Entry::Metadata
        } else {
            Entry::MethodNotAllowed
        }
    } else {
        Entry::Check
    }
}

/// Where a request goes.
pub fn enter(endpoint: Option<&MetadataEndpoint>, path: &str, method: &str) -> (r: Entry)
    ensures
        r == entry(
            match endpoint {
                Some(e) => Some(e.path@),
                None => None,
            },
            path@,
            method@,
        ),
{
    match endpoint {
        Some(e) => if same(path, e.path.as_str()) {
            if same(method, "GET") || same(method, "HEAD") {
                Entry::Metadata
            } else {
                Entry::MethodNotAllowed
            }
        } else {
            Entry::Check
        },
        None => Entry::Check,
    }
}

/// What is done with a checked request.
pub enum Disposition {
    /// The request is handed to the inner proxy.
    Forward,
    /// The request is denied with this response.
    Deny(Result<pingora_http::ResponseHeader, ResponseError>),
}

/// Applies the outcome of a check: a forwarded request leaves its token, nonce
/// and credential handling in the context, a denied one leaves the context as
/// it is.
pub fn apply_outcome<C, X: HasAuthState<C>>(outcome: Outcome<C>, ctx: &mut X) -> (r: Disposition)
    ensures
        match outcome {
            Outcome::Forward { token, dpop_nonce, strip_credentials } => {
                &&& r is Forward
                &&& final(ctx).token() == token
                &&& final(ctx).nonce() == dpop_nonce
                &&& final(ctx).strips() == strip_credentials
            },
            Outcome::Deny { status, challenges, dpop_nonce } => {
                &&& *final(ctx) == *old(ctx)
                &&& r matches Disposition::Deny(response)
                &&& response is Ok == sendable(status, texts(challenges@), opt_text(dpop_nonce))
                &&& response matches Ok(h) ==> head_of(h) == challenge_response(
                    status,
                    texts(challenges@),
                    opt_text(dpop_nonce),
                )
                &&& response matches Err(e) ==> challenge_fault(e, status, texts(challenges@))
            },
        },
{
    match outcome {
        Outcome::Forward { token, dpop_nonce, strip_credentials } => {
            *ctx.validated_token_mut() = token;
            *ctx.dpop_nonce_mut() = dpop_nonce;
            ctx.set_strip_credentials(strip_credentials);
            Disposition::Forward
        },
        Outcome::Deny { status, challenges, dpop_nonce } => {
            let nonce = match &dpop_nonce {
                Some(n) => Some(n.as_str()),
                None => None,
            };
            Disposition::Deny(challenge_head(status, &challenges, nonce))
        },
    }
}

/// Removes the credentials from a request to the upstream, where the context
/// says so: the `Authorization` and `DPoP` headers.
pub fn strip_upstream_credentials<C, X: HasAuthState<C>>(
    ctx: &X,
    request: &mut pingora_http::RequestHeader,
)
    ensures
        request_fields(*final(request)) == if ctx.strips() {
            request_fields(*old(request)).remove("authorization"@).remove("dpop"@)
        } else {
            request_fields(*old(request))
        },
{
    if ctx.strip_credentials() {
        proof {
            reveal_strlit("authorization");
            reveal_strlit("dpop");
            assert(lower_case_name("authorization"@));
            assert(lower_case_name("dpop"@));
        }
        remove_header(request, "authorization");
        remove_header(request, "dpop");
    }
}

/// Sets the `DPoP-Nonce` header where the check produced a nonce. The nonce is
/// taken out of the context.
pub fn insert_nonce<C, X: HasAuthState<C>>(
    ctx: &mut X,
    response: &mut pingora_http::ResponseHeader,
) -> (r: Result<(), ResponseError>)
    requires
        old(ctx).nonce() is Some ==> response_names(*old(response)) < MAX_HEADER_NAMES,
    ensures
        response_names(*final(response)) <= response_names(*old(response)) + 1,
        final(ctx).nonce() is None,
        final(ctx).token() == old(ctx).token(),
        final(ctx).strips() == old(ctx).strips(),
        r is Ok == (old(ctx).nonce() is Some ==> header_safe(old(ctx).nonce()->0@)),
        r is Ok ==> head_of(*final(response)) == crate::resource::response::with_nonce(
            head_of(*old(response)),
            opt_text(old(ctx).nonce()),
        ),
        r matches Err(e) ==> e.says("failed to set DPoP-Nonce header"@, Some(bad_insert_text()))
            && head_of(*final(response)) == head_of(*old(response)),
{
    let taken = ctx.dpop_nonce_mut().take();
    match taken {
        Some(nonce) => put_header(
            response,
            HeaderField::DpopNonce,
            nonce.as_str(),
            "failed to set DPoP-Nonce header",
        ),
        None => Ok(()),
    }
}

/// After the credentials have been stripped, neither header is left.
pub proof fn law_stripped_request_has_no_credentials(fields: Map<Seq<char>, Seq<Seq<u8>>>)
    ensures
        !fields.remove("authorization"@).remove("dpop"@).dom().contains("authorization"@),
        !fields.remove("authorization"@).remove("dpop"@).dom().contains("dpop"@),
        forall|name: Seq<char>|
            name != "authorization"@ && name != "dpop"@ && #[trigger] fields.dom().contains(name)
                ==> fields.remove("authorization"@).remove("dpop"@).dom().contains(name)
                && fields.remove("authorization"@).remove("dpop"@)[name] == fields[name],
{
}

/// The metadata endpoint takes `GET` and `HEAD` on its path and no other method
/// there; every other request is checked, and so is every request where there is
/// no endpoint.
pub proof fn law_entry_by_path_and_method(
    endpoint: Option<&MetadataEndpoint>,
    path: &str,
    method: &str,
    r: Entry,
)
    requires
        call_ensures(enter, (endpoint, path, method), r),
    ensures
        r is Check <==> endpoint is None || endpoint->0.path@ != path@,
        r is Metadata <==> endpoint is Some && endpoint->0.path@ == path@ && (method@ == "GET"@
            || method@ == "HEAD"@),
        r is MethodNotAllowed <==> endpoint is Some && endpoint->0.path@ == path@ && method@
            != "GET"@ && method@ != "HEAD"@,
{
}

/// The metadata endpoint is there exactly where it is enabled, and serves the
/// document of the guard on the path of the guard.
pub proof fn law_endpoint_serves_the_guard<C>(
    guard: &Guard<C>,
    enabled: bool,
    document: Result<(String, Vec<u8>), ConfigError>,
    r: Result<Option<MetadataEndpoint>, ConfigError>,
)
    requires
        call_ensures(Guard::<C>::resource_metadata, (guard,), document),
        call_ensures(metadata_endpoint::<C>, (guard, enabled), r),
    ensures
        r is Ok,
        r->Ok_0 is Some <==> enabled,
        enabled ==> r->Ok_0->0.path@ == document->Ok_0.0@ && r->Ok_0->0.body@
            == document->Ok_0.1@,
{
}

/// A forwarded request leaves its token, its nonce and what is to be done with
/// its credentials in the context, and nothing of an earlier one. A denied
/// request leaves the context as it was, and is answered with the status, the
/// challenges and the nonce of the denial.
pub proof fn law_outcome_is_applied<C, X: HasAuthState<C>>(
    outcome: Outcome<C>,
    ctx: &mut X,
    nonce: Option<&str>,
    response: Result<pingora_http::ResponseHeader, ResponseError>,
    r: Disposition,
)
    requires
        call_ensures(apply_outcome::<C, X>, (outcome, ctx), r),
        outcome is Deny ==> opt_str(nonce) == opt_text(outcome->Deny_dpop_nonce),
        outcome is Deny ==> call_ensures(
            challenge_head,
            (outcome->status, &outcome->challenges, nonce),
            response,
        ),
    ensures
        outcome is Forward ==> {
            &&& r is Forward
            &&& final(ctx).token() == outcome->token
            &&& final(ctx).nonce() == outcome->Forward_dpop_nonce
            &&& final(ctx).strips() == outcome->strip_credentials
        },
        outcome is Deny ==> {
            &&& r is Deny
            &&& *final(ctx) == *old(ctx)
            &&& r->Deny_0 is Ok <==> response is Ok
            &&& response is Ok ==> response_status(r->Deny_0->Ok_0) == response_status(
                response->Ok_0,
            )
            &&& response is Ok ==> response_fields(r->Deny_0->Ok_0) == response_fields(
                response->Ok_0,
            )
            &&& response is Err ==> r->Deny_0->Err_0.context@ == response->Err_0.context@
        },
{
    if outcome is Deny && response is Ok {
        assert(head_of(r->Deny_0->Ok_0) == head_of(response->Ok_0));
        assert(head_of(response->Ok_0).status == response_status(response->Ok_0));
        assert(head_of(response->Ok_0).fields == response_fields(response->Ok_0));
        assert(head_of(r->Deny_0->Ok_0).status == response_status(r->Deny_0->Ok_0));
        assert(head_of(r->Deny_0->Ok_0).fields == response_fields(r->Deny_0->Ok_0));
    }
}

/// Where the context says so, neither credential header reaches the upstream;
/// every other header does, and all of them do where it does not say so.
pub proof fn law_credentials_do_not_reach_the_upstream<C, X: HasAuthState<C>>(
    ctx: &X,
    request: &mut pingora_http::RequestHeader,
    name: Seq<char>,
)
    requires
        call_ensures(strip_upstream_credentials::<C, X>, (ctx, request), ()),
    ensures
        ctx.strips() ==> !request_fields(*final(request)).dom().contains("authorization"@),
        ctx.strips() ==> !request_fields(*final(request)).dom().contains("dpop"@),
        !ctx.strips() ==> request_fields(*final(request)) == request_fields(*old(request)),
        name != "authorization"@ && name != "dpop"@ ==> {
            &&& request_fields(*final(request)).dom().contains(name) <==> request_fields(
                *old(request),
            ).dom().contains(name)
            &&& request_fields(*old(request)).dom().contains(name) ==> request_fields(
                *final(request),
            )[name] == request_fields(*old(request))[name]
        },
{
}

/// The nonce of a check is set on the response once: it is then the one value of
/// `DPoP-Nonce`, the other headers and the status are as they were, and the
/// context holds it no longer. Without a nonce the response stays as it is.
pub proof fn law_nonce_is_set_once<C, X: HasAuthState<C>>(
    ctx: &mut X,
    response: &mut pingora_http::ResponseHeader,
    r: Result<(), ResponseError>,
)
    requires
        call_ensures(insert_nonce::<C, X>, (ctx, response), r),
    ensures
        final(ctx).nonce() is None,
        final(ctx).token() == old(ctx).token(),
        final(ctx).strips() == old(ctx).strips(),
        response_status(*final(response)) == response_status(*old(response)),
        old(ctx).nonce() is None ==> r is Ok && response_fields(*final(response))
            == response_fields(*old(response)),
        old(ctx).nonce() is Some ==> (r is Ok <==> header_safe(old(ctx).nonce()->0@)),
        old(ctx).nonce() is Some && r is Ok ==> response_fields(*final(response))
            == response_fields(*old(response)).insert(
            "dpop-nonce"@,
            seq![vstd::utf8::encode_utf8(old(ctx).nonce()->0@)],
        ),
        r is Err ==> response_fields(*final(response)) == response_fields(*old(response)),
        r is Err ==> r->Err_0.context@ == "failed to set DPoP-Nonce header"@,
        r is Err ==> r->Err_0.cause is Some && r->Err_0.cause->0@
            == " InvalidHTTPHeader context: invalid value while insert"@,
{
    let before = head_of(*old(response));
    let after = head_of(*final(response));
    assert(before.status == response_status(*old(response)) && before.fields == response_fields(
        *old(response),
    ));
    assert(after.status == response_status(*final(response)) && after.fields == response_fields(
        *final(response),
    ));
}

} // verus!
