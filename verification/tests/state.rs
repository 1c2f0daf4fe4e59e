use cancel::State;
use std::time::{Duration, Instant};

#[test]
fn new_state_is_live() {
    let state = State::new(None);
    assert!(!state.canceled);
    assert!(state.deadline.is_none());
    assert!(!state.was_canceled());

    let at = Instant::now();
    let state = State::new(Some(at));
    assert!(!state.canceled);
    assert_eq!(state.deadline, Some(at));
    assert!(!state.was_canceled());
}

#[test]
fn state_cancel_sets_the_flag_only() {
    let at = Instant::now();
    let mut state = State::new(Some(at));
    state.cancel();
    assert!(state.canceled);
    assert!(state.was_canceled());
    assert_eq!(state.deadline, Some(at));
    state.cancel();
    assert!(state.was_canceled());
    assert_eq!(state.deadline, Some(at));
}

#[test]
fn state_clock_matters() {
    let at = Instant::now();
    assert!(!State::new(None).clock_matters());
    assert!(State::new(Some(at)).clock_matters());
    let mut state = State::new(Some(at));
    state.cancel();
    assert!(!state.clock_matters());
    let mut state = State::new(None);
    state.cancel();
    assert!(!state.clock_matters());
}

#[test]
fn state_expired_is_strict() {
    let at = Instant::now();
    let state = State::new(Some(at));
    assert!(!state.expired(at - Duration::from_nanos(1)));
    assert!(!state.expired(at));
    assert!(state.expired(at + Duration::from_nanos(1)));
    assert!(!State::new(None).expired(at + Duration::new(1_000_000, 0)));
}

#[test]
fn state_expired_ignores_the_flag() {
    let at = Instant::now();
    let mut state = State::new(Some(at));
    state.cancel();
    assert!(!state.expired(at));
    assert!(state.expired(at + Duration::from_millis(1)));
}

#[test]
fn state_query_latches() {
    let at = Instant::now();
    let mut state = State::new(Some(at));
    assert!(!state.is_canceled(at));
    assert!(!state.canceled);
    assert!(state.is_canceled(at + Duration::from_millis(1)));
    assert!(state.canceled);
    assert_eq!(state.deadline, Some(at));
    assert!(state.is_canceled(at - Duration::from_millis(1)));
    assert!(state.was_canceled());
}

#[test]
fn state_query_without_deadline() {
    let now = Instant::now();
    let mut state = State::new(None);
    assert!(!state.is_canceled(now));
    assert!(!state.is_canceled(now + Duration::new(3600, 0)));
    assert!(!state.canceled);
    state.cancel();
    assert!(state.is_canceled(now));
    assert!(state.deadline.is_none());
}

#[test]
fn state_check_agrees_with_query() {
    let at = Instant::now();
    let late = at + Duration::from_millis(1);

    let mut checked = State::new(Some(at));
    let mut asked = State::new(Some(at));
    assert_eq!(checked.check_cancel(at).is_err(), asked.is_canceled(at));
    assert!(checked.check_cancel(at).is_ok());
    assert_eq!(checked.canceled, asked.canceled);

    assert_eq!(checked.check_cancel(late).is_err(), asked.is_canceled(late));
    assert!(checked.check_cancel(late).is_err());
    assert!(checked.canceled);
    assert_eq!(checked.canceled, asked.canceled);
    assert!(checked.check_cancel(at).is_err());
}

#[test]
fn state_is_copied() {
    let mut state = State::new(None);
    let copy = state;
    state.cancel();
    assert!(state.canceled);
    assert!(!copy.canceled);
    assert_eq!(format!("{:?}", copy), "State { canceled: false, deadline: None }");
}
