use tomat::clock::TimerState;
use tomat::phase::{AutoAdvance, Phase, SoundType};
use tomat::status::{Format, StatusOutput};

const T0: u64 = 1_000_000;

#[test]
fn test_sound_types() {
    let _work_to_break = SoundType::WorkToBreak;
    let _break_to_work = SoundType::BreakToWork;
    let _work_to_long_break = SoundType::WorkToLongBreak;
}

#[test]
fn test_new_timer_starts_in_paused_work_state() {
    let timer = TimerState::new(25 * 60, 5 * 60, 15 * 60, 4);

    assert!(matches!(timer.phase, Phase::Work));
    assert!(timer.is_paused);
    assert_eq!(timer.work_seconds, 25 * 60);
    assert_eq!(timer.break_seconds, 5 * 60);
    assert_eq!(timer.long_break_seconds, 15 * 60);
    assert_eq!(timer.sessions_until_long_break, 4);
    assert_eq!(timer.current_session_count, 0);
    assert_eq!(timer.auto_advance, AutoAdvance::Never);
}

#[test]
fn test_start_work_sets_running_state() {
    let mut timer = TimerState::new(25 * 60, 5 * 60, 15 * 60, 4);

    timer.start_work(T0);

    assert!(matches!(timer.phase, Phase::Work));
    assert!(!timer.is_paused);
    assert_eq!(timer.duration_seconds, 25 * 60);
    assert!(timer.start_time > 0);
}

#[test]
fn test_paused_timer_shows_full_duration() {
    let timer = TimerState::new(25 * 60, 5 * 60, 15 * 60, 4);

    let remaining = timer.remaining_seconds(T0);

    assert_eq!(remaining, 25 * 60);
}

#[test]
fn test_running_timer_calculates_remaining_time() {
    let mut timer = TimerState::new(25 * 60, 5 * 60, 15 * 60, 4);
    timer.start_work(T0);

    let remaining = timer.remaining_seconds(T0);
    assert!(remaining > 24 * 60 && remaining <= 25 * 60);
}

#[test]
fn test_is_finished_false_when_paused() {
    let timer = TimerState::new(25 * 60, 5 * 60, 15 * 60, 4);

    assert!(!timer.is_finished(T0));
}

#[test]
fn test_is_finished_false_when_time_remaining() {
    let mut timer = TimerState::new(25 * 60, 5 * 60, 15 * 60, 4);
    timer.start_work(T0);

    assert!(!timer.is_finished(T0));
}

#[test]
fn test_resume_unpauses_timer() {
    let mut timer = TimerState::new(25 * 60, 5 * 60, 15 * 60, 4);
    assert!(timer.is_paused);

    timer.resume(T0);

    assert!(!timer.is_paused);
    assert!(timer.start_time > 0);
}

#[test]
fn test_stop_resets_to_paused_work() {
    let mut timer = TimerState::new(25 * 60, 5 * 60, 15 * 60, 4);
    timer.auto_advance = AutoAdvance::All;
    timer.current_session_count = 2;
    timer.start_work(T0);

    timer.stop();

    assert!(matches!(timer.phase, Phase::Work));
    assert!(timer.is_paused);
    assert_eq!(timer.current_session_count, 0);
    assert_eq!(timer.duration_seconds, timer.work_seconds);
}

#[test]
fn test_next_phase_work_to_break_auto_advance_false() {
    let mut timer = TimerState::new(25 * 60, 5 * 60, 15 * 60, 4);
    timer.auto_advance = AutoAdvance::Never;
    timer.phase = Phase::Work;
    timer.current_session_count = 0;

    timer.next_phase(T0);

    assert!(matches!(timer.phase, Phase::Break));
    assert!(timer.is_paused);
    assert_eq!(timer.duration_seconds, 5 * 60);
    assert_eq!(timer.current_session_count, 1);
}

#[test]
fn test_next_phase_work_to_break_auto_advance_true() {
    let mut timer = TimerState::new(25 * 60, 5 * 60, 15 * 60, 4);
    timer.auto_advance = AutoAdvance::All;
    timer.phase = Phase::Work;
    timer.current_session_count = 0;

    timer.next_phase(T0);

    assert!(matches!(timer.phase, Phase::Break));
    assert!(!timer.is_paused);
    assert_eq!(timer.duration_seconds, 5 * 60);
    assert_eq!(timer.current_session_count, 1);
    assert!(timer.start_time > 0);
}

#[test]
fn test_next_phase_work_to_long_break_after_sessions() {
    let mut timer = TimerState::new(25 * 60, 5 * 60, 15 * 60, 4);
    timer.auto_advance = AutoAdvance::Never;
    timer.phase = Phase::Work;
    timer.current_session_count = 3;

    timer.next_phase(T0);

    assert!(matches!(timer.phase, Phase::LongBreak));
    assert!(timer.is_paused);
    assert_eq!(timer.duration_seconds, 15 * 60);
    assert_eq!(timer.current_session_count, 0);
}

#[test]
fn test_next_phase_break_to_work() {
    let mut timer = TimerState::new(25 * 60, 5 * 60, 15 * 60, 4);
    timer.auto_advance = AutoAdvance::Never;
    timer.phase = Phase::Break;

    timer.next_phase(T0);

    assert!(matches!(timer.phase, Phase::Work));
    assert!(timer.is_paused);
    assert_eq!(timer.duration_seconds, 25 * 60);
}

#[test]
fn test_next_phase_long_break_to_work() {
    let mut timer = TimerState::new(25 * 60, 5 * 60, 15 * 60, 4);
    timer.auto_advance = AutoAdvance::Never;
    timer.phase = Phase::LongBreak;

    timer.next_phase(T0);

    assert!(matches!(timer.phase, Phase::Work));
    assert!(timer.is_paused);
    assert_eq!(timer.duration_seconds, 25 * 60);
}

#[test]
fn test_get_status_output_paused_work() {
    let timer = TimerState::new(25 * 60, 5 * 60, 15 * 60, 4);

    let status = timer.get_status_output(&Format::default(), T0);

    match status {
        StatusOutput::Waybar { text, class, tooltip, percentage } => {
            assert_eq!(text, "\u{1f345} 25:00 \u{23f8}");
            assert_eq!(class, "work-paused");
            assert!(tooltip.contains("Work (1/4)"));
            assert!(tooltip.contains("Paused"));
            assert_eq!(percentage, 0);
        }
        _ => panic!("Expected Waybar format for default"),
    }
}

#[test]
fn test_get_status_output_running_work() {
    let mut timer = TimerState::new(25 * 60, 5 * 60, 15 * 60, 4);
    timer.start_work(T0);

    let status = timer.get_status_output(&Format::default(), T0);

    match status {
        StatusOutput::Waybar { text, class, tooltip, percentage } => {
            assert!(text.starts_with("\u{1f345}"));
            assert!(text.ends_with("\u{25b6}"));
            assert_eq!(class, "work");
            assert!(tooltip.contains("Work (1/4)"));
            assert!(!tooltip.contains("Paused"));
            assert!((0..=100).contains(&percentage));
        }
        _ => panic!("Expected Waybar format for default"),
    }
}

#[test]
fn test_get_status_output_paused_break() {
    let mut timer = TimerState::new(25 * 60, 5 * 60, 15 * 60, 4);
    timer.phase = Phase::Break;
    timer.duration_seconds = 5 * 60;
    timer.is_paused = true;

    let status = timer.get_status_output(&Format::default(), T0);

    match status {
        StatusOutput::Waybar { text, class, tooltip, .. } => {
            assert_eq!(text, "\u{2615} 05:00 \u{23f8}");
            assert_eq!(class, "break-paused");
            assert!(tooltip.contains("Break"));
            assert!(tooltip.contains("Paused"));
        }
        _ => panic!("Expected Waybar format for default"),
    }
}

#[test]
fn test_get_status_output_paused_long_break() {
    let mut timer = TimerState::new(25 * 60, 5 * 60, 15 * 60, 4);
    timer.phase = Phase::LongBreak;
    timer.duration_seconds = 15 * 60;
    timer.is_paused = true;

    let status = timer.get_status_output(&Format::default(), T0);

    match status {
        StatusOutput::Waybar { text, class, tooltip, .. } => {
            assert_eq!(text, "\u{1f3d6}\u{fe0f} 15:00 \u{23f8}");
            assert_eq!(class, "long-break-paused");
            assert!(tooltip.contains("Long Break"));
        }
        _ => panic!("Expected Waybar format for default"),
    }
}

#[test]
fn test_session_count_increments_correctly() {
    let mut timer = TimerState::new(25 * 60, 5 * 60, 15 * 60, 4);
    timer.auto_advance = AutoAdvance::Never;
    timer.phase = Phase::Work;

    for i in 0..3 {
        assert_eq!(timer.current_session_count, i);
        timer.next_phase(T0);
        assert!(matches!(timer.phase, Phase::Break));
        timer.next_phase(T0);
        assert!(matches!(timer.phase, Phase::Work));
    }

    assert_eq!(timer.current_session_count, 3);

    timer.next_phase(T0);
    assert!(matches!(timer.phase, Phase::LongBreak));
    assert_eq!(timer.current_session_count, 0);
}

#[test]
fn test_fractional_minutes() {
    // Half a minute of work, 0.1 min of break, 0.2 min of long break.
    let timer = TimerState::new(30, 6, 12, 4);

    assert_eq!(timer.work_seconds, 30);
    assert_eq!(timer.break_seconds, 6);
    assert_eq!(timer.long_break_seconds, 12);

    let remaining = timer.remaining_seconds(T0);
    assert_eq!(remaining, 30);
}

#[test]
fn test_auto_advance_persists_through_phases() {
    let mut timer = TimerState::new(25 * 60, 5 * 60, 15 * 60, 4);
    timer.auto_advance = AutoAdvance::All;
    timer.phase = Phase::Work;

    timer.next_phase(T0);
    assert!(!timer.is_paused);

    timer.next_phase(T0);
    assert!(!timer.is_paused);
}

#[test]
fn test_pause_preserves_remaining_time() {
    let mut timer = TimerState::new(25 * 60, 5 * 60, 15 * 60, 4);
    timer.start_work(T0);

    // Five minutes pass before the pause.
    let remaining_before = timer.remaining_seconds(T0 + 300) as i64;
    assert_eq!(remaining_before, 25 * 60 - 300);

    timer.pause(T0 + 300);

    // Much later, resume.
    timer.resume(T0 + 10_000);

    let remaining_after = timer.remaining_seconds(T0 + 10_000) as i64;

    assert!(
        (remaining_after - remaining_before).abs() <= 1,
        "Expected remaining time to be preserved after pause/resume. Before: {}, After: {}",
        remaining_before,
        remaining_after
    );
}
