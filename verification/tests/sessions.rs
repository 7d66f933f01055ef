//! Session stores, token state, and time.

use huskarl_pingora::headers::visible_text;
use huskarl_pingora::login::grant::{CompletedLogin, IdClaims, IdToken, RefreshToken, TokenResponse};
use huskarl_pingora::login::session::SessionError;
use huskarl_pingora::login::store_session::{create_core_session, session_key_of};
use huskarl_pingora::login::{
    CookieSessionStore, CoreSessionData, StoreBackedSessionStore, TokenSession, TokenState,
};
use huskarl_pingora::time::{Duration, SystemTime};
use pingora_http::ResponseHeader;

fn set_cookies(response: &ResponseHeader) -> Vec<String> {
    response
        .headers
        .get_all("set-cookie")
        .iter()
        .map(|v| v.to_str().unwrap().to_owned())
        .collect()
}

/// The `Cookie` header that a browser sends after these `Set-Cookie` lines.
fn browser(lines: &[String]) -> http::HeaderMap {
    let mut jar: Vec<(String, String)> = Vec::new();
    for line in lines {
        let pair = line.split("; ").next().unwrap();
        let (name, value) = pair.split_once('=').unwrap();
        jar.retain(|(n, _)| n != name);
        if !line.ends_with("; Max-Age=0") {
            jar.push((name.to_owned(), value.to_owned()));
        }
    }
    let mut headers = http::HeaderMap::new();
    if !jar.is_empty() {
        let pairs: Vec<String> = jar.iter().map(|(n, v)| format!("{n}={v}")).collect();
        headers.insert(http::header::COOKIE, pairs.join("; ").parse().unwrap());
    }
    headers
}

fn response() -> ResponseHeader {
    ResponseHeader::build(200, Some(1)).unwrap()
}

// ── Cookie sessions ──────────────────────────────────────────────────────────

fn store() -> CookieSessionStore {
    CookieSessionStore::new("sid".into(), true, "/".into())
}

#[test]
fn small_session_fits_one_cookie() {
    let mut resp = response();
    store().save_bundle(&b"abc".to_vec(), &mut resp).unwrap();
    let lines = set_cookies(&resp);
    assert_eq!(lines.len(), 11);
    assert_eq!(
        lines[0],
        "sid.0=1:YWJj; HttpOnly; SameSite=Lax; Path=/; Secure"
    );
    assert_eq!(
        lines[1],
        "sid.1=; HttpOnly; SameSite=Lax; Path=/; Secure; Max-Age=0"
    );
    assert_eq!(
        lines[10],
        "sid=; HttpOnly; SameSite=Lax; Path=/; Secure; Max-Age=0"
    );
}

/// What was saved is loaded, whatever its size, up to the limit.
#[test]
fn saved_sessions_load() {
    for len in [1, 2, 2849, 2850, 2851, 5700, 28_499, 28_500] {
        let bundle: Vec<u8> = (0..len).map(|i| (i * 7 % 251) as u8).collect();
        let mut resp = response();
        store().save_bundle(&bundle, &mut resp).unwrap();
        let lines = set_cookies(&resp);
        assert_eq!(lines.len(), 11);
        assert!(lines.iter().all(|l| l.len() < 4096));
        assert_eq!(store().load_bundle(&browser(&lines)), Some(bundle));
    }
}

#[test]
fn other_cookies_do_not_matter() {
    let bundle: Vec<u8> = (0..9000).map(|i| (i % 251) as u8).collect();
    let mut resp = response();
    store().save_bundle(&bundle, &mut resp).unwrap();
    let mut pairs: Vec<String> = set_cookies(&resp)
        .iter()
        .filter(|l| !l.ends_with("; Max-Age=0"))
        .map(|l| l.split("; ").next().unwrap().to_owned())
        .collect();
    assert_eq!(pairs.len(), 4);
    pairs.reverse();
    pairs.insert(0, "sid.4=stale".to_owned());
    pairs.insert(2, "other=1".to_owned());
    pairs.push("sid.x=2; sid=3; sid2.0=4".to_owned());
    let mut headers = http::HeaderMap::new();
    headers.insert(http::header::COOKIE, pairs.join("; ").parse().unwrap());
    assert_eq!(store().load_bundle(&headers), Some(bundle));
}

/// The chunks may come in any order and over any number of `Cookie` headers.
#[test]
fn sessions_load_over_several_cookie_headers() {
    let bundle: Vec<u8> = (0..9_000u32).map(|i| (i % 251) as u8).collect();
    let mut resp = response();
    store().save_bundle(&bundle, &mut resp).unwrap();
    let pair = |i: usize| {
        let line = &set_cookies(&resp)[i];
        line.split("; ").next().unwrap().to_owned()
    };
    let mut headers = http::HeaderMap::new();
    for value in [pair(2), format!("other=1; {}", pair(0)), pair(3), pair(1)] {
        headers.append(http::header::COOKIE, value.parse().unwrap());
    }
    assert_eq!(store().load_bundle(&headers), Some(bundle));
}

/// A tab or a space within the cookie name does no harm.
#[test]
fn odd_cookie_names_come_back() {
    let odd = CookieSessionStore::new("a\tb c ".into(), false, "/".into());
    let mut resp = response();
    odd.save_bundle(&b"abc".to_vec(), &mut resp).unwrap();
    assert_eq!(
        odd.load_bundle(&browser(&set_cookies(&resp))),
        Some(b"abc".to_vec())
    );
}

#[test]
fn a_smaller_session_replaces_a_larger_one() {
    let mut resp = response();
    store().save_bundle(&vec![1; 10_000], &mut resp).unwrap();
    let mut lines = set_cookies(&resp);
    let mut resp = response();
    store().save_bundle(&vec![2; 10], &mut resp).unwrap();
    lines.extend(set_cookies(&resp));
    assert_eq!(store().load_bundle(&browser(&lines)), Some(vec![2; 10]));
}

#[test]
fn too_large_sessions_are_refused() {
    let mut resp = response();
    let e = store()
        .save_bundle(&vec![0; 28_501], &mut resp)
        .unwrap_err();
    assert!(matches!(e, SessionError::TooLarge { chunks: 11 }));
    assert_eq!(
        e.message(),
        "session payload too large: requires 11 chunks (max 10)"
    );
    assert!(set_cookies(&resp).is_empty());
}

/// Cookies are added to a response; whatever else it holds stays.
#[test]
fn other_headers_stay_as_they_are() {
    let mut resp = response();
    resp.append_header("X-Upstream", "a").unwrap();
    resp.append_header("x-upstream", "b").unwrap();
    resp.append_header("Set-Cookie", "theirs=1").unwrap();
    let others = |resp: &ResponseHeader| {
        let values = resp.headers.get_all("x-upstream").iter();
        let values: Vec<&[u8]> = values.map(|v| v.as_bytes()).collect();
        values == [b"a", b"b"] && resp.headers.keys_len() == 2
    };
    assert!(store().save_bundle(&vec![0; 28_501], &mut resp).is_err());
    assert!(others(&resp));
    assert_eq!(set_cookies(&resp), ["theirs=1"]);
    store().save_bundle(&vec![0; 3], &mut resp).unwrap();
    assert!(others(&resp));
    assert_eq!(set_cookies(&resp)[0], "theirs=1");
    assert_eq!(set_cookies(&resp).len(), 12);
    store().delete_session(&mut resp).unwrap();
    let pointer = StoreBackedSessionStore::new((), "ptr".into(), false, "/".into());
    pointer.set_pointer_cookie(&vec![1], &mut resp).unwrap();
    pointer.clear_pointer_cookie(&mut resp);
    assert!(others(&resp));
    assert_eq!(set_cookies(&resp).len(), 25);
}

#[test]
fn an_unwritable_cookie_name_is_an_error() {
    let store = CookieSessionStore::new("s\n".into(), false, "/".into());
    let mut resp = response();
    let e = store.save_bundle(&b"abc".to_vec(), &mut resp).unwrap_err();
    assert!(matches!(e, SessionError::Header(_)));
    assert_eq!(
        e.message(),
        " InvalidHTTPHeader context: invalid value while append"
    );
    assert!(set_cookies(&resp).is_empty());
    store.delete_session(&mut resp).unwrap();
    assert!(set_cookies(&resp).is_empty());
}

#[test]
fn deleted_sessions_are_gone() {
    let mut resp = response();
    store().save_bundle(&vec![3; 9000], &mut resp).unwrap();
    store().delete_session(&mut resp).unwrap();
    let lines = set_cookies(&resp);
    assert_eq!(lines.len(), 22);
    assert_eq!(
        lines[11],
        "sid=; HttpOnly; SameSite=Lax; Path=/; Secure; Max-Age=0"
    );
    assert_eq!(
        lines[21],
        "sid.9=; HttpOnly; SameSite=Lax; Path=/; Secure; Max-Age=0"
    );
    assert_eq!(store().load_bundle(&browser(&lines)), None);
}

#[test]
fn damaged_sessions_do_not_load() {
    let load = |cookies: &str| {
        let mut headers = http::HeaderMap::new();
        headers.insert(http::header::COOKIE, cookies.parse().unwrap());
        store().load_bundle(&headers)
    };
    assert_eq!(load("sid.0=1:YWJj"), Some(b"abc".to_vec()));
    assert_eq!(load("sid.0=2:YW; sid.1=Jj"), Some(b"abc".to_vec()));
    assert_eq!(load("sid.01=Jj; sid.+0=2:YW"), Some(b"abc".to_vec()));
    // The last chunk of a number counts.
    assert_eq!(load("sid.0=1:eA; sid.0=1:YWJj"), Some(b"abc".to_vec()));
    assert_eq!(load("sid.0=0:YWJj"), Some(b"abc".to_vec()));
    // A missing chunk, a missing count, a bad count, bad base64, no chunk.
    assert_eq!(load("sid.0=2:YW"), None);
    assert_eq!(load("sid.0=YWJj"), None);
    assert_eq!(load("sid.0=x:YWJj"), None);
    assert_eq!(load("sid.0=1:YWJj="), None);
    assert_eq!(load("sid.0=1:Y+Jj"), None);
    assert_eq!(load("sid=1:YWJj; sidx.0=1:YWJj"), None);
    assert_eq!(load("sid.0=18446744073709551616:YWJj"), None);
}

// ── Pointer cookies ──────────────────────────────────────────────────────────

#[test]
fn pointer_cookies_come_back() {
    let store = StoreBackedSessionStore::new((), "ptr".into(), false, "/app".into());
    let bundle: Vec<u8> = (0..=255).collect();
    let mut resp = response();
    store.set_pointer_cookie(&bundle, &mut resp).unwrap();
    let lines = set_cookies(&resp);
    assert_eq!(lines.len(), 1);
    assert!(lines[0].starts_with("ptr=AAEC"));
    assert!(lines[0].ends_with("; HttpOnly; SameSite=Lax; Path=/app"));
    assert_eq!(store.read_pointer_cookie(&browser(&lines)), Some(bundle));

    store.clear_pointer_cookie(&mut resp);
    let lines = set_cookies(&resp);
    assert_eq!(
        lines[1],
        "ptr=; HttpOnly; SameSite=Lax; Path=/app; Max-Age=0"
    );
    assert_eq!(store.read_pointer_cookie(&browser(&lines)), None);
}

#[test]
fn unwritable_pointer_cookies_are_errors() {
    let store = StoreBackedSessionStore::new((), "p\r".into(), false, "/".into());
    let mut resp = response();
    assert!(matches!(
        store.set_pointer_cookie(&vec![1], &mut resp),
        Err(SessionError::Header(_))
    ));
    store.clear_pointer_cookie(&mut resp);
    assert!(set_cookies(&resp).is_empty());
}

#[test]
fn session_keys_are_text() {
    assert_eq!(session_key_of(b"key".to_vec()).as_deref(), Some("key"));
    assert_eq!(
        session_key_of("\u{e9}".as_bytes().to_vec()).as_deref(),
        Some("\u{e9}")
    );
    assert_eq!(session_key_of(vec![0xff]), None);
}

// ── Completed logins ─────────────────────────────────────────────────────────

fn token_response(raw: Option<&str>) -> TokenResponse {
    TokenResponse {
        raw: match raw {
            Some(text) => Ok(serde_json::from_str(text).unwrap()),
            None => Err("key must be a string".to_owned()),
        },
        refresh_token: Some(RefreshToken {
            token: "refresh".into(),
            dpop_jkt: Some("thumbprint".into()),
        }),
        id_token: Some(IdToken { token: "id".into() }),
    }
}

fn claims() -> IdClaims {
    IdClaims {
        sub: Some("alice".into()),
        sid: Some("sess".into()),
        acr: None,
        amr: vec![],
        auth_time: None,
    }
}

fn at(secs: u64) -> SystemTime {
    SystemTime::from_unix(secs)
}

#[test]
fn completed_logins_keep_their_parts() {
    let login = CompletedLogin::with_id_claims(token_response(Some("{}")), claims());
    assert_eq!(
        login.id_claims().and_then(|c| c.sub.as_deref()),
        Some("alice")
    );
    assert_eq!(
        login.token_response().id_token.as_ref().unwrap().token,
        "id"
    );
    let (response, parts) = login.into_parts();
    assert!(response.raw.is_ok());
    assert_eq!(parts.unwrap().sid.as_deref(), Some("sess"));
    let login = CompletedLogin::without_id_claims(token_response(None));
    assert!(login.id_claims().is_none());
    let login = CompletedLogin::from_validated(token_response(None), Some(claims()));
    assert!(login.id_claims().is_some());
}

#[test]
fn sid_is_taken_from_the_extra_claims() {
    let sid = |extra: Option<&str>| {
        let value = extra.map(|text| serde_json::from_str(text).unwrap());
        IdClaims::from_token(Some("s".into()), value.as_ref(), None, vec!["pwd".into()], Some(7))
    };
    let claims = sid(Some("{\"sid\":\"abc\",\"x\":1}"));
    assert_eq!(claims.sid.as_deref(), Some("abc"));
    assert_eq!(claims.sub.as_deref(), Some("s"));
    assert_eq!(claims.amr, ["pwd"]);
    assert_eq!(claims.auth_time, Some(7));
    assert_eq!(sid(Some("{\"sid\":5}")).sid, None);
    assert_eq!(sid(Some("[]")).sid, None);
    assert_eq!(sid(None).sid, None);
}

#[test]
fn token_state_of_a_login() {
    let login = CompletedLogin::without_id_claims(token_response(Some("{\"expires_in\":60}")));
    let state = TokenState::from_completed_at(&login, at(1000)).unwrap();
    assert_eq!(state.token_expiry, Some(at(1060)));
    assert_eq!(state.created_at, at(1000));
    assert_eq!(state.last_active, at(1000));
    assert_eq!(state.refresh_token.unwrap().token, "refresh");
    assert_eq!(state.id_token.unwrap().token, "id");
    assert_eq!(state.raw_token_response["expires_in"], 60);

    for raw in ["{}", "{\"expires_in\":\"60\"}", "{\"expires_in\":-1}", "7"] {
        let login = CompletedLogin::without_id_claims(token_response(Some(raw)));
        let state = TokenState::from_completed_at(&login, at(1000)).unwrap();
        assert_eq!(state.token_expiry, None, "{raw}");
    }
    let login = CompletedLogin::without_id_claims(token_response(None));
    let e = TokenState::from_completed(&login).err().unwrap();
    assert!(matches!(e, SessionError::TokenResponse(_)));
    assert_eq!(e.message(), "key must be a string");
}

#[test]
fn refresh_replaces_what_the_server_sends() {
    let login = CompletedLogin::without_id_claims(token_response(Some("{\"expires_in\":60}")));
    let state = TokenState::from_completed_at(&login, at(1000)).unwrap();

    let mut sent = token_response(Some("{\"access_token\":\"b\"}"));
    sent.refresh_token = None;
    let next = state.refreshed_at(&sent, at(2000));
    assert_eq!(next.token_expiry, None);
    assert_eq!(next.raw_token_response["access_token"], "b");
    let kept = next.refresh_token.as_ref().unwrap();
    assert_eq!(kept.token, "refresh");
    assert_eq!(kept.dpop_jkt.as_deref(), Some("thumbprint"));
    assert_eq!(next.last_active, at(2000));
    assert_eq!(next.created_at, at(1000));
    assert_eq!(next.id_token.as_ref().unwrap().token, "id");

    let mut sent = token_response(None);
    sent.refresh_token = Some(RefreshToken {
        token: "rotated".into(),
        dpop_jkt: None,
    });
    sent.id_token = None;
    let next = state.refreshed_at(&sent, at(2000));
    assert_eq!(next.token_expiry, Some(at(1060)));
    assert_eq!(next.raw_token_response["expires_in"], 60);
    assert_eq!(next.refresh_token.unwrap().token, "rotated");
    assert_eq!(next.id_token.unwrap().token, "id");
}

#[test]
fn activity_changes_the_last_use_only() {
    let login = CompletedLogin::without_id_claims(token_response(Some("{\"expires_in\":60}")));
    let state = TokenState::from_completed_at(&login, at(1000)).unwrap();
    let next = state.with_activity_at(at(1500));
    assert_eq!(next.last_active, at(1500));
    assert_eq!(next.created_at, at(1000));
    assert_eq!(next.token_expiry, Some(at(1060)));
    assert_eq!(next.raw_token_response, state.raw_token_response);

    let mut session = CookieSessionStore::create_session(&login).unwrap();
    session.set_token_state(state);
    session.record_activity();
    assert!(session.last_active().nanos > at(1500).nanos);
    session.apply_refresh(&token_response(Some("{}")));
    assert_eq!(session.token_expiry(), None);
    assert_eq!(session.raw_token_response().to_string(), "{}");
}

#[test]
fn core_sessions_take_the_subject_and_a_fresh_key() {
    let login = CompletedLogin::with_id_claims(token_response(Some("{}")), claims());
    let now = SystemTime {
        nanos: 1_700_000_000_123_456_789,
    };
    let a = create_core_session(&login, now).unwrap();
    let b = create_core_session(&login, now).unwrap();
    assert_eq!(a.sub(), Some("alice"));
    assert_eq!(a.sid(), Some("sess"));
    assert_ne!(a.session_key(), b.session_key());
    // The form of a UUID of version 7.
    let key = uuid::Uuid::parse_str(a.session_key()).unwrap();
    assert_eq!(key.to_string(), a.session_key());
    assert_eq!(key.get_version_num(), 7);
    // It begins with the milliseconds of the login.
    let digits = a.session_key()[..13].replace('-', "");
    assert_eq!(u64::from_str_radix(&digits, 16).unwrap(), 1_700_000_000_123);
    assert_eq!(a.created_at(), now);
    assert_eq!(a.last_active(), now);
    let (session_key, sub, sid, state) = a.into_parts();
    assert_eq!(session_key, key.to_string());
    assert_eq!((sub.as_deref(), sid.as_deref()), (Some("alice"), Some("sess")));
    let again = CoreSessionData::from_login("k".into(), None, state);
    assert_eq!(again.session_key(), "k");
    assert_eq!(again.sub(), None);
    assert!(again.token_expiry().is_none());

    let login = CompletedLogin::without_id_claims(token_response(None));
    assert!(matches!(
        create_core_session(&login, at(1_700_000_000)),
        Err(SessionError::TokenResponse(_))
    ));
}

/// A key made at a later millisecond comes later in the order of texts.
#[test]
fn session_keys_sort_by_time() {
    let login = CompletedLogin::without_id_claims(token_response(Some("{}")));
    let key = |millis: i128| {
        let now = SystemTime {
            nanos: millis * 1_000_000,
        };
        create_core_session(&login, now).unwrap().session_key().to_owned()
    };
    let times = [0, 1, 0xffff, 0x10000, 1_700_000_000_000, 1_700_000_000_001];
    let keys: Vec<String> = times.iter().map(|t| key(*t)).collect();
    assert!(keys.windows(2).all(|pair| pair[0] < pair[1]));
    assert!(keys[0].starts_with("00000000-0000-7"));
}

/// Recording activity and applying a refresh leave the identity of a session
/// alone.
#[test]
fn core_sessions_keep_their_identity() {
    let login = CompletedLogin::with_id_claims(token_response(Some("{}")), claims());
    let mut core = create_core_session(&login, at(1000)).unwrap();
    let key = core.session_key().to_owned();
    core.record_activity_at(at(1001));
    assert_eq!(core.last_active(), at(1001));
    core.apply_refresh_at(&token_response(Some("{\"expires_in\":9}")), at(1002));
    assert_eq!(core.token_expiry(), Some(at(1011)));
    core.record_activity();
    core.apply_refresh(&token_response(Some("{}")));
    assert_eq!(core.session_key(), key);
    assert_eq!((core.sub(), core.sid()), (Some("alice"), Some("sess")));
}

#[test]
fn stored_states_keep_whole_seconds() {
    let login = CompletedLogin::without_id_claims(token_response(Some("{\"expires_in\":60}")));
    let now = SystemTime {
        nanos: 1_000_999_999_999,
    };
    let state = TokenState::from_completed_at(&login, now).unwrap();
    let stored = state.to_stored();
    assert_eq!(stored.created_at, 1000);
    assert_eq!(stored.last_active, 1000);
    assert_eq!(stored.token_expiry, Some(1060));
    let again = TokenState::from_stored(stored);
    assert_eq!(again.created_at, at(1000));
    assert_eq!(again.last_active, at(1000));
    assert_eq!(again.token_expiry, Some(at(1060)));
    assert_eq!(again.raw_token_response, state.raw_token_response);
    assert_eq!(again.refresh_token.unwrap().token, "refresh");
    assert_eq!(again.id_token.unwrap().token, "id");
    // Before the epoch there are no seconds.
    let early = state.with_activity_at(SystemTime { nanos: -1 });
    assert_eq!(early.to_stored().last_active, 0);
}

// ── Time ─────────────────────────────────────────────────────────────────────

#[test]
fn unix_seconds_round_trip() {
    for secs in [0, 1, 1_700_000_000, u64::MAX] {
        assert_eq!(at(secs).to_unix(), secs);
    }
    let time = SystemTime {
        nanos: 5_999_999_999,
    };
    assert_eq!(time.to_unix(), 5);
    assert_eq!(SystemTime { nanos: -1 }.to_unix(), 0);
}

#[test]
fn the_clock_is_read() {
    let before = std::time::SystemTime::now();
    let now = SystemTime::now();
    let after = std::time::SystemTime::now();
    let nanos = |t: std::time::SystemTime| {
        t.duration_since(std::time::UNIX_EPOCH).unwrap().as_nanos() as i128
    };
    assert!(nanos(before) <= now.nanos && now.nanos <= nanos(after));
    assert_eq!(now.plus_secs(3).nanos, now.nanos + 3_000_000_000);
}

#[test]
fn readings_lie_on_either_side_of_the_epoch() {
    let point = |before, secs, nanos| SystemTime::from_reading(before, secs, nanos).nanos;
    assert_eq!(point(false, 2, 5), 2_000_000_005);
    assert_eq!(point(true, 2, 5), -2_000_000_005);
    assert_eq!(point(true, 0, 0), 0);
    assert_eq!(SystemTime::from_reading(false, 7, 0), at(7));
}

#[test]
fn spans_are_compared_exactly() {
    let span = Duration {
        secs: 1,
        nanos: 500_000_000,
    };
    assert_eq!(span.as_nanos(), 1_500_000_000);
    let start = SystemTime { nanos: 100 };
    let later = |n: i128| SystemTime { nanos: 100 + n };
    assert!(!later(1_500_000_000).elapsed_more_than(start, span));
    assert!(later(1_500_000_001).elapsed_more_than(start, span));
    assert!(!later(-5).elapsed_more_than(start, Duration::from_secs(0)));
    assert!(start.within(span, later(1_500_000_000)));
    assert!(!start.within(span, later(1_500_000_001)));
}

#[test]
fn header_values_are_read_where_they_are_visible() {
    assert_eq!(visible_text(&b"a\tb ~".to_vec()).as_deref(), Some("a\tb ~"));
    for byte in 0u8..=255 {
        let expected = http::HeaderValue::from_bytes(&[byte])
            .ok()
            .is_some_and(|v| v.to_str().is_ok());
        if http::HeaderValue::from_bytes(&[byte]).is_ok() {
            assert_eq!(visible_text(&vec![byte]).is_some(), expected, "{byte}");
        }
    }
}
