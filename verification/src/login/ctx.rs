//! Per-request login session context.
//!
//! [`HasLoginSession`] is what a proxy context offers so that the session of a
//! request can be stored and tracked; [`LoginCtx`] is a wrapper that
//! implements it.

use vstd::prelude::*;

verus! {

/// Per-request login session state.
///
/// The session is loaded while a request is filtered, and mutations are
/// detected so that it is persisted with the response.
///
/// The functions that only contracts speak of need not be given where the trait
/// is implemented outside of verified code.
pub trait HasLoginSession<S> {
    /// The stored session.
    closed spec fn stored(&self) -> Option<S> {
        arbitrary()
    }

    /// The session has been mutated since the last save.
    closed spec fn dirty(&self) -> bool {
        arbitrary()
    }

    /// Deletion of the session has been requested.
    closed spec fn doomed(&self) -> bool {
        arbitrary()
    }

    /// Returns a reference to the session, if loaded.
    fn login_session(&self) -> (r: Option<&S>)
        ensures
            match r {
                Some(s) => self.stored() == Some(*s),
                None => self.stored() is None,
            },
    ;

    /// Returns a mutable reference to the session and marks it as mutated.
    fn login_session_mut(&mut self) -> (r: Option<&mut S>)
        ensures
            r is Some == old(self).stored() is Some,
            r matches Some(s) ==> {
                &&& old(self).stored() == Some(*s)
                &&& final(self).stored() == Some(*final(s))
                &&& final(self).dirty()
            },
            r is None ==> final(self).stored() is None && final(self).dirty() == old(self).dirty(),
            final(self).doomed() == old(self).doomed(),
    ;

    /// Replaces the stored session, which then counts as unmodified.
    fn set_login_session(&mut self, session: Option<S>)
        ensures
            final(self).stored() == session,
            !final(self).dirty(),
            final(self).doomed() == old(self).doomed(),
    ;

    /// Returns `true` if the session has been mutated since the last save.
    fn is_session_dirty(&self) -> (r: bool)
        ensures
            r == self.dirty(),
    ;

    /// Clears the dirty flag after the session has been persisted.
    fn clear_session_dirty(&mut self)
        ensures
            !final(self).dirty(),
            final(self).stored() == old(self).stored(),
            final(self).doomed() == old(self).doomed(),
    ;

    /// Requests that the session be deleted during response processing.
    fn request_session_delete(&mut self)
        ensures
            final(self).doomed(),
            final(self).stored() == old(self).stored(),
            final(self).dirty() == old(self).dirty(),
    ;

    /// Returns `true` if session deletion has been requested.
    fn is_delete_requested(&self) -> (r: bool)
        ensures
            r == self.doomed(),
    ;

    /// Removes and returns the session, clearing the dirty and delete flags.
    fn take_login_session(&mut self) -> (r: Option<S>)
        ensures
            r == old(self).stored(),
            final(self).stored() is None,
            !final(self).dirty(),
            !final(self).doomed(),
    ;

    /// Mutable access without setting the dirty flag, for updates that are
    /// persisted by a touch rather than a full save.
    fn login_session_touch_mut(&mut self) -> (r: Option<&mut S>)
        ensures
            r is Some == old(self).stored() is Some,
            r matches Some(s) ==> {
                &&& old(self).stored() == Some(*s)
                &&& final(self).stored() == Some(*final(s))
            },
            r is None ==> final(self).stored() is None,
            final(self).dirty() == old(self).dirty(),
            final(self).doomed() == old(self).doomed(),
    ;
}

/// Context wrapper that bundles login session state with an inner user
/// context. Access the fields of the inner context via `ctx.inner`.
#[derive(Debug)]
pub struct LoginCtx<T, S> {
    session: Option<S>,
    session_dirty: bool,
    delete_requested: bool,
    /// The inner user-defined context.
    pub inner: T,
}

impl<T: Default, S> Default for LoginCtx<T, S> {
    fn default() -> (r: Self)
        ensures
            r.stored() is None,
            !r.dirty(),
            !r.doomed(),
            T::default.ensures((), r.context()),
    {
        LoginCtx { session: None, session_dirty: false, delete_requested: false, inner: T::default() }
    }
}

impl<T, S> LoginCtx<T, S> {
    /// The inner context.
    pub closed spec fn context(&self) -> T {
        self.inner
    }

    /// Creates a new `LoginCtx` wrapping the given inner context.
    pub fn new(inner: T) -> (r: Self)
        ensures
            r.context() == inner,
            r.stored() is None,
            !r.dirty(),
            !r.doomed(),
    {
        LoginCtx { session: None, session_dirty: false, delete_requested: false, inner }
    }
}

impl<T, S> HasLoginSession<S> for LoginCtx<T, S> {
    closed spec fn stored(&self) -> Option<S> {
        self.session
    }

    closed spec fn dirty(&self) -> bool {
        self.session_dirty
    }

    closed spec fn doomed(&self) -> bool {
        self.delete_requested
    }

    fn login_session(&self) -> (r: Option<&S>) {
        self.session.as_ref()
    }

    fn login_session_mut(&mut self) -> (r: Option<&mut S>)
        ensures
            final(self).context() == old(self).context(),
    {
        if self.session.is_some() {
            self.session_dirty = true;
        }
        match &mut self.session {
            Some(s) => Some(s),
            None => None,
        }
    }

    fn set_login_session(&mut self, session: Option<S>)
        ensures
            final(self).context() == old(self).context(),
    {
        self.session = session;
        self.session_dirty = false;
    }

    fn is_session_dirty(&self) -> (r: bool) {
        self.session_dirty
    }

    fn clear_session_dirty(&mut self)
        ensures
            final(self).context() == old(self).context(),
    {
        self.session_dirty = false;
    }

    fn request_session_delete(&mut self)
        ensures
            final(self).context() == old(self).context(),
    {
        self.delete_requested = true;
    }

    fn is_delete_requested(&self) -> (r: bool) {
        self.delete_requested
    }

    fn take_login_session(&mut self) -> (r: Option<S>)
        ensures
            final(self).context() == old(self).context(),
    {
        self.session_dirty = false;
        self.delete_requested = false;
        self.session.take()
    }

    fn login_session_touch_mut(&mut self) -> (r: Option<&mut S>)
        ensures
            final(self).context() == old(self).context(),
    {
        match &mut self.session {
            Some(s) => Some(s),
            None => None,
        }
    }
}

/// A new context holds no session, and nothing is to be done with one.
pub proof fn law_new_login_context<T, S>(inner: T, r: LoginCtx<T, S>)
    requires
        call_ensures(LoginCtx::<T, S>::new, (inner,), r),
    ensures
        r.stored() is None,
        !r.dirty(),
        !r.doomed(),
        r.context() == inner,
{
}

/// What a context does with its session. A session that is set counts as
/// unmodified; one that is taken leaves nothing behind; a request to delete it
/// and the end of a save change only what they are about.
pub proof fn law_login_context_keeps_track<S, X: HasLoginSession<S>>(
    ctx: &mut X,
    session: Option<S>,
)
    ensures
        call_ensures(X::set_login_session, (ctx, session), ()) ==> {
            &&& final(ctx).stored() == session
            &&& !final(ctx).dirty()
            &&& final(ctx).doomed() == old(ctx).doomed()
        },
        call_ensures(X::clear_session_dirty, (ctx,), ()) ==> {
            &&& !final(ctx).dirty()
            &&& final(ctx).stored() == old(ctx).stored()
            &&& final(ctx).doomed() == old(ctx).doomed()
        },
        call_ensures(X::request_session_delete, (ctx,), ()) ==> {
            &&& final(ctx).doomed()
            &&& final(ctx).stored() == old(ctx).stored()
            &&& final(ctx).dirty() == old(ctx).dirty()
        },
        forall|r: Option<S>| #[trigger]
            call_ensures(X::take_login_session, (ctx,), r) ==> {
                &&& r == old(ctx).stored()
                &&& final(ctx).stored() is None
                &&& !final(ctx).dirty()
                &&& !final(ctx).doomed()
            },
        forall|r: Option<&mut S>| #[trigger]
            call_ensures(X::login_session_mut, (ctx,), r) ==> {
                &&& r is Some <==> old(ctx).stored() is Some
                &&& r is Some ==> final(ctx).dirty()
                &&& r is None ==> final(ctx).dirty() == old(ctx).dirty()
                &&& final(ctx).doomed() == old(ctx).doomed()
            },
        forall|r: Option<&mut S>| #[trigger]
            call_ensures(X::login_session_touch_mut, (ctx,), r) ==> {
                &&& r is Some <==> old(ctx).stored() is Some
                &&& final(ctx).dirty() == old(ctx).dirty()
                &&& final(ctx).doomed() == old(ctx).doomed()
            },
{
}

/// Whatever is done with the session, the inner context stays as it is.
pub proof fn law_inner_context_of_login_stays<T, S>(ctx: &mut LoginCtx<T, S>, session: Option<S>)
    ensures
        call_ensures(
            <LoginCtx<T, S> as HasLoginSession<S>>::set_login_session,
            (ctx, session),
            (),
        ) ==> final(ctx).context() == old(ctx).context(),
        call_ensures(<LoginCtx<T, S> as HasLoginSession<S>>::clear_session_dirty, (ctx,), ())
            ==> final(ctx).context() == old(ctx).context(),
        call_ensures(<LoginCtx<T, S> as HasLoginSession<S>>::request_session_delete, (ctx,), ())
            ==> final(ctx).context() == old(ctx).context(),
        forall|r: Option<S>| #[trigger]
            call_ensures(<LoginCtx<T, S> as HasLoginSession<S>>::take_login_session, (ctx,), r)
                ==> final(ctx).context() == old(ctx).context(),
        forall|r: Option<&mut S>| #[trigger]
            call_ensures(<LoginCtx<T, S> as HasLoginSession<S>>::login_session_mut, (ctx,), r)
                ==> final(ctx).context() == old(ctx).context(),
        forall|r: Option<&mut S>| #[trigger]
            call_ensures(
                <LoginCtx<T, S> as HasLoginSession<S>>::login_session_touch_mut,
                (ctx,),
                r,
            ) ==> final(ctx).context() == old(ctx).context(),
{
}

} // verus!
