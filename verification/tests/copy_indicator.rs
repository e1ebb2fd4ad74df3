use ckad_wiki::copy_feedback::{CopyAction, CopyFeedback, RESET_DELAY_SECS};

#[test]
fn indicator_starts_idle() {
    let state = CopyFeedback::new();
    assert!(!state.is_copied());
    assert_eq!(state.pending_reset(), None);
}

#[test]
fn delay_is_two_seconds() {
    assert_eq!(RESET_DELAY_SECS, 2);
}

#[test]
fn copy_request_turns_the_indicator_on() {
    let mut state = CopyFeedback::new();
    let action = state.request_copy("k get pods".to_string());
    assert_eq!(
        action,
        CopyAction { text: "k get pods".to_string(), cancel: None, token: 1, delay_secs: 2 }
    );
    assert!(state.is_copied());
    assert_eq!(state.pending_reset(), Some(1));
}

#[test]
fn timer_turns_the_indicator_off() {
    let mut state = CopyFeedback::new();
    let action = state.request_copy("k get pods".to_string());
    assert!(state.timer_elapsed(action.token));
    assert!(!state.is_copied());
    assert_eq!(state.pending_reset(), None);
    assert!(!state.timer_elapsed(action.token));
    assert!(!state.is_copied());
}

#[test]
fn second_request_restarts_the_delay() {
    let mut state = CopyFeedback::new();
    let first = state.request_copy("a".to_string());
    let second = state.request_copy("b".to_string());
    assert_eq!(
        second,
        CopyAction { text: "b".to_string(), cancel: Some(first.token), token: 2, delay_secs: 2 }
    );
    assert!(state.is_copied());
    assert!(!state.timer_elapsed(first.token));
    assert!(state.is_copied());
    assert_eq!(state.pending_reset(), Some(second.token));
    assert!(state.timer_elapsed(second.token));
    assert!(!state.is_copied());
}

#[test]
fn request_after_expiry_cancels_nothing() {
    let mut state = CopyFeedback::new();
    let first = state.request_copy("a".to_string());
    assert!(state.timer_elapsed(first.token));
    let second = state.request_copy("a".to_string());
    assert_eq!(second.cancel, None);
    assert_ne!(second.token, first.token);
    assert!(state.is_copied());
}

#[test]
fn timer_on_idle_state_changes_nothing() {
    let mut state = CopyFeedback::new();
    assert!(!state.timer_elapsed(0));
    assert!(!state.timer_elapsed(1));
    assert_eq!(state, CopyFeedback::new());
}

#[test]
fn destroy_names_the_pending_timer() {
    let idle = CopyFeedback::new();
    assert_eq!(idle.destroy(), None);
    let mut state = CopyFeedback::new();
    state.request_copy("a".to_string());
    let action = state.request_copy("a".to_string());
    assert_eq!(state.destroy(), Some(action.token));
    let mut state = CopyFeedback::new();
    let action = state.request_copy("a".to_string());
    state.timer_elapsed(action.token);
    assert_eq!(state.destroy(), None);
}
