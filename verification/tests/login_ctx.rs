//! The session in the request context.

use huskarl_pingora::login::{HasLoginSession, LoginCtx};
use huskarl_pingora::AuthCtx;

#[test]
fn login_ctx_new_defaults() {
    let ctx = LoginCtx::<(), String>::new(());
    assert!(ctx.login_session().is_none());
    assert!(!ctx.is_session_dirty());
    assert_eq!(ctx.inner, ());
}

#[test]
fn login_ctx_default_defaults() {
    let ctx = LoginCtx::<(), String>::default();
    assert!(ctx.login_session().is_none());
    assert!(!ctx.is_session_dirty());
}

#[test]
fn set_session_and_read() {
    let mut ctx = LoginCtx::<(), String>::new(());
    ctx.set_login_session(Some("session-data".into()));
    assert_eq!(ctx.login_session(), Some(&"session-data".to_owned()));
    // set_login_session clears the dirty flag
    assert!(!ctx.is_session_dirty());
}

#[test]
fn session_mut_sets_dirty() {
    let mut ctx = LoginCtx::<(), String>::new(());
    ctx.set_login_session(Some("data".into()));
    assert!(!ctx.is_session_dirty());

    let s = ctx.login_session_mut().unwrap();
    s.push_str("-modified");
    assert!(ctx.is_session_dirty());
    assert_eq!(ctx.login_session(), Some(&"data-modified".to_owned()));
}

#[test]
fn session_mut_without_session_not_dirty() {
    let mut ctx = LoginCtx::<(), String>::new(());
    assert!(ctx.login_session_mut().is_none());
    assert!(!ctx.is_session_dirty());
}

#[test]
fn clear_dirty_flag() {
    let mut ctx = LoginCtx::<(), String>::new(());
    ctx.set_login_session(Some("data".into()));
    let _ = ctx.login_session_mut();
    assert!(ctx.is_session_dirty());

    ctx.clear_session_dirty();
    assert!(!ctx.is_session_dirty());
}

#[test]
fn set_session_none_clears() {
    let mut ctx = LoginCtx::<(), String>::new(());
    ctx.set_login_session(Some("data".into()));
    ctx.set_login_session(None);
    assert!(ctx.login_session().is_none());
    assert!(!ctx.is_session_dirty());
}

#[test]
fn delete_not_requested_by_default() {
    let ctx = LoginCtx::<(), String>::new(());
    assert!(!ctx.is_delete_requested());
}

#[test]
fn request_session_delete_sets_flag() {
    let mut ctx = LoginCtx::<(), String>::new(());
    ctx.request_session_delete();
    assert!(ctx.is_delete_requested());
}

#[test]
fn delete_requested_survives_set_session() {
    let mut ctx = LoginCtx::<(), String>::new(());
    ctx.request_session_delete();
    ctx.set_login_session(Some("data".into()));
    assert!(ctx.is_delete_requested());
}

#[test]
fn ctx_inner_context_accessible() {
    let mut ctx = LoginCtx::<Vec<i32>, String>::new(vec![1, 2, 3]);
    assert_eq!(ctx.inner, vec![1, 2, 3]);
    ctx.inner.push(4);
    assert_eq!(ctx.inner, vec![1, 2, 3, 4]);

    let mut ctx = AuthCtx::<String, ()>::new("hello".into());
    assert_eq!(ctx.inner, "hello");
    ctx.inner.push_str(" world");
    assert_eq!(ctx.inner, "hello world");
}

#[test]
fn take_login_session_returns_and_clears() {
    let mut ctx = LoginCtx::<(), String>::new(());
    ctx.set_login_session(Some("data".into()));
    let _ = ctx.login_session_mut();
    ctx.request_session_delete();

    let taken = ctx.take_login_session();
    assert_eq!(taken, Some("data".to_owned()));
    assert!(ctx.login_session().is_none());
    assert!(!ctx.is_session_dirty());
    assert!(!ctx.is_delete_requested());
}

#[test]
fn take_login_session_when_empty() {
    let mut ctx = LoginCtx::<(), String>::new(());
    assert!(ctx.take_login_session().is_none());
    assert!(!ctx.is_session_dirty());
    assert!(!ctx.is_delete_requested());
}

#[test]
fn login_session_touch_mut_does_not_set_dirty() {
    let mut ctx = LoginCtx::<(), String>::new(());
    ctx.set_login_session(Some("data".into()));

    let s = ctx.login_session_touch_mut().unwrap();
    s.push_str("-touched");
    assert!(!ctx.is_session_dirty());
    assert_eq!(ctx.login_session(), Some(&"data-touched".to_owned()));
}

#[test]
fn login_session_touch_mut_when_empty() {
    let mut ctx = LoginCtx::<(), String>::new(());
    assert!(ctx.login_session_touch_mut().is_none());
    assert!(!ctx.is_session_dirty());
}
