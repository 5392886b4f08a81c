use tomat::clock::TimerState;
use tomat::phase::{AutoAdvance, HookEvent, Phase};
use tomat::statefile::{parse_state, render_state};

const T0: u64 = 1_700_000_000;

#[test]
fn test_state_persistence_round_trip() {
    // 30 minutes of work, 10 of break, 20 of long break, 3 sessions.
    let mut state = TimerState::new(30 * 60, 10 * 60, 20 * 60, 3);
    state.start_work(T0);
    state.current_session_count = 2;
    state.auto_advance = AutoAdvance::All;

    let rendered = render_state(&state);
    let loaded_state = parse_state(&rendered).expect("Should load state");

    assert_eq!(loaded_state.work_seconds, 30 * 60);
    assert_eq!(loaded_state.break_seconds, 10 * 60);
    assert_eq!(loaded_state.long_break_seconds, 20 * 60);
    assert_eq!(loaded_state.sessions_until_long_break, 3);
    assert_eq!(loaded_state.current_session_count, 2);
    assert_eq!(loaded_state.auto_advance, AutoAdvance::All);
    assert!(!loaded_state.is_paused);
    assert_eq!(loaded_state, state);
}

#[test]
fn test_state_round_trip_paused_with_progress() {
    let mut state = TimerState::new(1500, 300, 900, 4);
    state.start_work(T0);
    state.pause(T0 + 120);
    assert_eq!(state.paused_elapsed_seconds, Some(120));

    let loaded = parse_state(&render_state(&state)).expect("Should load state");
    assert_eq!(loaded, state);
}

#[test]
fn test_state_round_trip_pending_hook() {
    let mut state = TimerState::new(1500, 300, 900, 4);
    state.phase = Phase::Work;
    state.next_phase(T0);
    assert_eq!(state.pending_hook, Some(HookEvent::BreakStart));

    let loaded = parse_state(&render_state(&state)).expect("Should load state");
    assert_eq!(loaded, state);
}

#[test]
fn test_state_document_is_valid_json() {
    let mut state = TimerState::new(1500, 300, 900, 4);
    state.start_work(T0);
    let rendered = render_state(&state);

    let value: serde_json::Value = serde_json::from_str(&rendered).unwrap();
    assert_eq!(value["phase"], "work");
    assert_eq!(value["start_time"], T0);
    assert_eq!(value["duration_seconds"], 1500);
    assert_eq!(value["is_paused"], false);
    assert!(value["paused_elapsed_seconds"].is_null());
    assert!(value["pending_hook"].is_null());
}

#[test]
fn test_corrupt_state_yields_nothing() {
    assert!(parse_state("").is_none());
    assert!(parse_state("{\"phase\":\"work\"").is_none());
    assert!(parse_state("not json at all").is_none());

    // Out-of-range values are rejected even when well-formed.
    let mut state = TimerState::new(1500, 300, 900, 4);
    state.start_work(T0);
    let rendered = render_state(&state);
    let tampered = rendered.replace("\"duration_seconds\":1500", "\"duration_seconds\":0");
    assert!(parse_state(&tampered).is_none());
}
