//! Per-request authentication context for the resource server.
//!
//! [`HasAuthState`] is what a proxy context offers so that the validated token
//! of a request can be stored; [`AuthCtx`] is a wrapper that implements it.

use std::sync::Arc;

use vstd::prelude::*;

use crate::resource::validator::ValidatedRequest;
use crate::text::{bool_repr, bool_text, opt_repr, opt_text, quoted_opt};

verus! {

/// Per-request OAuth 2.0 authentication state.
///
/// The functions that only contracts speak of need not be given where the trait
/// is implemented outside of verified code.
pub trait HasAuthState<C> {
    /// The stored token.
    closed spec fn token(&self) -> Option<Arc<ValidatedRequest<C>>> {
        arbitrary()
    }

    /// The nonce for the response.
    closed spec fn nonce(&self) -> Option<String> {
        arbitrary()
    }

    /// Credentials are removed before the request is forwarded.
    closed spec fn strips(&self) -> bool {
        arbitrary()
    }

    /// Returns the validated token, if present.
    fn validated_token(&self) -> (r: Option<&Arc<ValidatedRequest<C>>>)
        ensures
            match r {
                Some(t) => self.token() == Some(*t),
                None => self.token() is None,
            },
    ;

    /// Mutable reference to the validated token.
    fn validated_token_mut(&mut self) -> (r: &mut Option<Arc<ValidatedRequest<C>>>)
        ensures
            *r == old(self).token(),
            final(self).token() == *final(r),
            final(self).nonce() == old(self).nonce(),
            final(self).strips() == old(self).strips(),
    ;

    /// Mutable reference to the DPoP nonce to include in the response, if any.
    fn dpop_nonce_mut(&mut self) -> (r: &mut Option<String>)
        ensures
            *r == old(self).nonce(),
            final(self).nonce() == *final(r),
            final(self).token() == old(self).token(),
            final(self).strips() == old(self).strips(),
    ;

    /// Whether the `Authorization` and `DPoP` headers should be stripped before
    /// forwarding the request upstream.
    fn strip_credentials(&self) -> (r: bool)
        ensures
            r == self.strips(),
    ;

    /// Sets whether credentials should be stripped before forwarding upstream.
    fn set_strip_credentials(&mut self, strip: bool)
        ensures
            final(self).strips() == strip,
            final(self).token() == old(self).token(),
            final(self).nonce() == old(self).nonce(),
    ;
}

/// Context wrapper that bundles auth state with an inner user context. Access
/// the fields of the inner context via `ctx.inner`.
pub struct AuthCtx<T, C = ()> {
    token: Option<Arc<ValidatedRequest<C>>>,
    dpop_nonce: Option<String>,
    strip_credentials: bool,
    /// The inner user-defined context.
    pub inner: T,
}

impl<T: Default, C> Default for AuthCtx<T, C> {
    fn default() -> (r: Self)
        ensures
            r.token() is None,
            r.nonce() is None,
            r.strips(),
            T::default.ensures((), r.context()),
    {
        AuthCtx { token: None, dpop_nonce: None, strip_credentials: true, inner: T::default() }
    }
}

/// How an authentication context is shown in logs: of the token only whether
/// there is one.
pub open spec fn auth_description(
    has_token: bool,
    nonce: Option<Seq<char>>,
    strips: bool,
    inner: Seq<char>,
) -> Seq<char> {
    "AuthCtx { has_token: "@ + bool_repr(has_token) + ", dpop_nonce: "@ + opt_repr(nonce)
        + ", strip_credentials: "@ + bool_repr(strips) + ", inner: "@ + inner + " }"@
}

impl<T, C> AuthCtx<T, C> {
    /// The inner context.
    pub closed spec fn context(&self) -> T {
        self.inner
    }

    /// Creates a new `AuthCtx` wrapping the given inner context.
    pub fn new(inner: T) -> (r: Self)
        ensures
            r.context() == inner,
            r.token() is None,
            r.nonce() is None,
            r.strips(),
    {
        AuthCtx { token: None, dpop_nonce: None, strip_credentials: true, inner }
    }

    /// The context as shown in logs, without token details; `inner` is the text
    /// of the inner context.
    pub fn describe(&self, inner: &str) -> (r: String)
        ensures
            r@ == auth_description(
                self.token() is Some,
                opt_text(self.nonce()),
                self.strips(),
                inner@,
            ),
    {
        let mut out = "AuthCtx { has_token: ".to_owned();
        out.append(bool_text(self.token.is_some()));
        out.append(", dpop_nonce: ");
        let nonce = quoted_opt(&self.dpop_nonce);
        out.append(nonce.as_str());
        out.append(", strip_credentials: ");
        out.append(bool_text(self.strip_credentials));
        out.append(", inner: ");
        out.append(inner);
        out.append(" }");
        out
    }
}

impl<T, C> HasAuthState<C> for AuthCtx<T, C> {
    closed spec fn token(&self) -> Option<Arc<ValidatedRequest<C>>> {
        self.token
    }

    closed spec fn nonce(&self) -> Option<String> {
        self.dpop_nonce
    }

    closed spec fn strips(&self) -> bool {
        self.strip_credentials
    }

    fn validated_token(&self) -> (r: Option<&Arc<ValidatedRequest<C>>>) {
        self.token.as_ref()
    }

    fn validated_token_mut(&mut self) -> (r: &mut Option<Arc<ValidatedRequest<C>>>)
        ensures
            final(self).context() == old(self).context(),
    {
        &mut self.token
    }

    fn dpop_nonce_mut(&mut self) -> (r: &mut Option<String>)
        ensures
            final(self).context() == old(self).context(),
    {
        &mut self.dpop_nonce
    }

    fn strip_credentials(&self) -> (r: bool) {
        self.strip_credentials
    }

    fn set_strip_credentials(&mut self, strip: bool)
        ensures
            final(self).context() == old(self).context(),
    {
        self.strip_credentials = strip;
    }
}

/// A new context holds no token and no nonce, and strips credentials.
pub proof fn law_new_auth_context<T, C>(inner: T, r: AuthCtx<T, C>)
    requires
        call_ensures(AuthCtx::<T, C>::new, (inner,), r),
    ensures
        r.token() is None,
        r.nonce() is None,
        r.strips(),
        r.context() == inner,
{
}

/// What is stored in a context is what is read from it, and storing one thing
/// leaves the others.
pub proof fn law_auth_context_keeps_what_is_stored<C, X: HasAuthState<C>>(
    ctx: &mut X,
    strip: bool,
)
    ensures
        call_ensures(X::set_strip_credentials, (ctx, strip), ()) ==> {
            &&& final(ctx).strips() == strip
            &&& final(ctx).token() == old(ctx).token()
            &&& final(ctx).nonce() == old(ctx).nonce()
        },
        forall|r: Option<&Arc<ValidatedRequest<C>>>| #[trigger]
            call_ensures(X::validated_token, (&*old(ctx),), r) ==> match r {
                Some(t) => old(ctx).token() == Some(*t),
                None => old(ctx).token() is None,
            },
        forall|r: bool| #[trigger]
            call_ensures(X::strip_credentials, (&*old(ctx),), r) ==> r == old(ctx).strips(),
{
}

/// What a context shows of itself says whether there is a token, and nothing of
/// it.
pub proof fn law_auth_context_shows_no_token<T, C>(
    a: &AuthCtx<T, C>,
    b: &AuthCtx<T, C>,
    inner: &str,
    x: String,
    y: String,
)
    requires
        a.token() is Some <==> b.token() is Some,
        opt_text(a.nonce()) == opt_text(b.nonce()),
        a.strips() == b.strips(),
        call_ensures(AuthCtx::<T, C>::describe, (a, inner), x),
        call_ensures(AuthCtx::<T, C>::describe, (b, inner), y),
    ensures
        x@ == y@,
{
}

/// What a context shows of itself: whether there is a token, the nonce, and what
/// is done with credentials.
pub proof fn law_auth_context_description<T, C>(ctx: &AuthCtx<T, C>, inner: &str, r: String)
    requires
        call_ensures(AuthCtx::<T, C>::describe, (ctx, inner), r),
    ensures
        r@ == "AuthCtx { has_token: "@ + (if ctx.token() is Some {
            "true"@
        } else {
            "false"@
        }) + ", dpop_nonce: "@ + opt_repr(opt_text(ctx.nonce())) + ", strip_credentials: "@ + (
        if ctx.strips() {
            "true"@
        } else {
            "false"@
        }) + ", inner: "@ + inner@ + " }"@,
{
}

/// Whatever is done with the authentication state, the inner context stays as it
/// is.
pub proof fn law_inner_context_of_auth_stays<T, C>(ctx: &mut AuthCtx<T, C>, strip: bool)
    ensures
        call_ensures(
            <AuthCtx<T, C> as HasAuthState<C>>::set_strip_credentials,
            (ctx, strip),
            (),
        ) ==> final(ctx).context() == old(ctx).context(),
        forall|r: &mut Option<String>| #[trigger]
            call_ensures(<AuthCtx<T, C> as HasAuthState<C>>::dpop_nonce_mut, (ctx,), r)
                ==> final(ctx).context() == old(ctx).context(),
        forall|r: &mut Option<Arc<ValidatedRequest<C>>>| #[trigger]
            call_ensures(<AuthCtx<T, C> as HasAuthState<C>>::validated_token_mut, (ctx,), r)
                ==> final(ctx).context() == old(ctx).context(),
{
}

} // verus!
