//! End-to-end exercises of the dark-mode toggle core: resolution priority,
//! the submission state machine, the cookie round trip, and the rendered
//! view values.

use darkmode::action::{toggle_dark_mode, ResponseCookies};
use darkmode::cookie::{
    apply_set_cookie, cookie_pair_value, read_initial_preference, read_initial_preference_str,
    set_cookie_value,
};
use darkmode::resolve::{resolve, ActionError, ToggleState};
use darkmode::view::{button_label, color_scheme, dark_mode_toggle, next_payload};

#[test]
fn resolve_falls_back_to_initial() {
    assert_eq!(resolve(None, None, false), false);
    assert_eq!(resolve(None, None, true), true);
}

#[test]
fn resolve_pending_always_wins() {
    for &p in &[false, true] {
        for &c in &[false, true] {
            for &i in &[false, true] {
                assert_eq!(resolve(Some(p), Some(c), i), p);
                assert_eq!(resolve(Some(p), None, i), p);
            }
        }
    }
}

#[test]
fn resolve_confirmed_beats_initial() {
    for &c in &[false, true] {
        for &i in &[false, true] {
            assert_eq!(resolve(None, Some(c), i), c);
        }
    }
}

#[test]
fn set_cookie_value_exact_bytes() {
    assert_eq!(set_cookie_value(true), b"darkmode=true; Path=/".to_vec());
    assert_eq!(set_cookie_value(false), b"darkmode=false; Path=/".to_vec());
}

#[test]
fn cookie_pair_value_exact_bytes() {
    assert_eq!(cookie_pair_value(true), b"darkmode=true".to_vec());
    assert_eq!(cookie_pair_value(false), b"darkmode=false".to_vec());
}

#[test]
fn read_preference_from_headers() {
    assert_eq!(read_initial_preference(b"darkmode=true"), true);
    assert_eq!(read_initial_preference(b"darkmode=false"), false);
    assert_eq!(read_initial_preference(b"a=b; darkmode=true"), true);
    assert_eq!(read_initial_preference(b"darkmode=true; other=1"), true);
    assert_eq!(read_initial_preference(b"  darkmode=true"), true);
    assert_eq!(read_initial_preference(b"xdarkmode=true"), false);
    assert_eq!(read_initial_preference(b"darkmode=truex"), false);
    assert_eq!(read_initial_preference(b"darkmode=tru"), false);
    assert_eq!(read_initial_preference(b"other=darkmode"), false);
    assert_eq!(read_initial_preference_str("a=b; darkmode=true; c=d"), true);
    assert_eq!(read_initial_preference_str("darkmode=false"), false);
}

#[test]
fn toggle_sets_cookie_and_echoes() {
    let mut response = Some(ResponseCookies::new());
    let r = toggle_dark_mode(&mut response, true);
    assert_eq!(r, Ok(true));
    assert_eq!(
        response.unwrap().set_cookie,
        Some(b"darkmode=true; Path=/".to_vec())
    );

    let mut response = Some(ResponseCookies::new());
    let r = toggle_dark_mode(&mut response, false);
    assert_eq!(r, Ok(false));
    assert_eq!(
        response.unwrap().set_cookie,
        Some(b"darkmode=false; Path=/".to_vec())
    );
}

#[test]
fn toggle_twice_same_input_overwrites() {
    for &v in &[false, true] {
        let expected = if v {
            b"darkmode=true; Path=/".to_vec()
        } else {
            b"darkmode=false; Path=/".to_vec()
        };
        let mut response = Some(ResponseCookies::new());
        assert_eq!(toggle_dark_mode(&mut response, v), Ok(v));
        assert_eq!(response.as_ref().unwrap().set_cookie, Some(expected.clone()));
        assert_eq!(toggle_dark_mode(&mut response, v), Ok(v));
        assert_eq!(response.as_ref().unwrap().set_cookie, Some(expected));
    }
}

#[test]
fn toggle_without_context_fails() {
    let mut response: Option<ResponseCookies> = None;
    let r = toggle_dark_mode(&mut response, true);
    assert_eq!(r, Err(ActionError::ContextMissing));
    assert!(response.is_none());
}

#[test]
fn cookie_round_trip() {
    for &v in &[false, true] {
        let mut response = Some(ResponseCookies::new());
        assert_eq!(toggle_dark_mode(&mut response, v), Ok(v));
        let set_cookie = response.unwrap().set_cookie.unwrap();
        let jar = apply_set_cookie(&set_cookie);
        assert_eq!(read_initial_preference(&jar), v);
    }
}

#[test]
fn initial_absent_reads_light_mode() {
    assert_eq!(read_initial_preference(b""), false);
    let state = ToggleState::new(false);
    let view = dark_mode_toggle(&state);
    assert_eq!(view.button_label, "Switch to Dark Mode");
    assert_eq!(view.color_scheme, "light");
    assert_eq!(view.payload, true);
}

#[test]
fn click_shows_pending_before_confirmation() {
    let mut state = ToggleState::new(false);
    assert!(state.is_idle());
    let payload = state.begin_submit();
    assert_eq!(payload, true);
    assert!(!state.is_idle());
    assert_eq!(state.pending, Some(true));
    assert_eq!(state.resolved(), true);
    let view = dark_mode_toggle(&state);
    assert_eq!(view.color_scheme, "dark");
    assert_eq!(view.button_label, "Switch to Light Mode");
    assert_eq!(view.payload, false);
}

#[test]
fn confirmation_persists_in_idle_resolution() {
    let mut state = ToggleState::new(false);
    let payload = state.begin_submit();
    let mut response = Some(ResponseCookies::new());
    let r = toggle_dark_mode(&mut response, payload);
    assert_eq!(r, Ok(true));
    state.complete(r);
    assert!(state.is_idle());
    assert_eq!(state.confirmed, Some(true));
    assert_eq!(state.resolved(), true);
    let jar = apply_set_cookie(&response.unwrap().set_cookie.unwrap());
    assert_eq!(jar, b"darkmode=true".to_vec());
    assert_eq!(read_initial_preference(&jar), true);
}

#[test]
fn failure_reverts_to_initial() {
    let mut state = ToggleState::new(false);
    let payload = state.begin_submit();
    assert_eq!(payload, true);
    assert_eq!(state.resolved(), true);
    state.complete(Err(ActionError::TransportFailure));
    assert!(state.is_idle());
    assert_eq!(state.confirmed, None);
    assert_eq!(state.resolved(), false);
}

#[test]
fn failure_reverts_to_prior_confirmed() {
    let mut state = ToggleState::new(false);
    state.begin_submit();
    state.complete(Ok(true));
    assert_eq!(state.resolved(), true);
    let payload = state.begin_submit();
    assert_eq!(payload, false);
    assert_eq!(state.resolved(), false);
    state.complete(Err(ActionError::TransportFailure));
    assert_eq!(state.resolved(), true);
    assert_eq!(state.confirmed, Some(true));
}

#[test]
fn derived_view_values() {
    assert_eq!(color_scheme(true), "dark");
    assert_eq!(color_scheme(false), "light");
    assert_eq!(button_label(true), "Switch to Light Mode");
    assert_eq!(button_label(false), "Switch to Dark Mode");
    assert_eq!(next_payload(true), false);
    assert_eq!(next_payload(false), true);
}

#[test]
fn apply_set_cookie_cuts_attributes() {
    assert_eq!(
        apply_set_cookie(b"darkmode=true; Path=/"),
        b"darkmode=true".to_vec()
    );
    assert_eq!(apply_set_cookie(b"darkmode=false"), b"darkmode=false".to_vec());
    assert_eq!(apply_set_cookie(b""), b"".to_vec());
}
