use tomat::clock::TimerState;
use tomat::config::{NotificationConfig, SoundConfig, SoundPlan, TimerConfig};
use tomat::daemon::handle_command;
use tomat::daemon::tick;
use tomat::phase::{AutoAdvance, HookEvent, Notice, Phase, should_advance};
use tomat::protocol::Command;
use tomat::response::ResponseData;
use tomat::status::{Format, StatusOutput};

const T0: u64 = 1_700_000_000;

fn defaults() -> TimerConfig {
    TimerConfig::default()
}

fn sound_off() -> SoundConfig {
    SoundConfig { enabled: false, ..SoundConfig::default() }
}

fn notif_off() -> NotificationConfig {
    NotificationConfig { enabled: false, ..NotificationConfig::default() }
}

fn fresh_daemon_clock() -> TimerState {
    let d = defaults();
    TimerState::new(d.work_seconds, d.break_seconds, d.long_break_seconds, d.sessions)
}

/// Policy coverage: every (mode, from_work) pair returns its fixed verdict.
#[test]
fn test_policy_decision_table() {
    assert_eq!(should_advance(AutoAdvance::Never, true), false);
    assert_eq!(should_advance(AutoAdvance::Never, false), false);
    assert_eq!(should_advance(AutoAdvance::All, true), true);
    assert_eq!(should_advance(AutoAdvance::All, false), true);
    assert_eq!(should_advance(AutoAdvance::ToBreak, true), true);
    assert_eq!(should_advance(AutoAdvance::ToBreak, false), false);
    assert_eq!(should_advance(AutoAdvance::ToWork, true), false);
    assert_eq!(should_advance(AutoAdvance::ToWork, false), true);
}

/// Pending-hook deferral: with manual advance, completing work fires no hook;
/// the break-start hook fires exactly once, on the explicit resume.
#[test]
fn test_pending_hook_fires_only_on_resume() {
    let mut clock = TimerState::new(3, 3, 900, 4);
    clock.start_work(T0);

    let t = clock.next_phase(T0 + 3);
    assert_eq!(t.fired, None, "hook must not fire while the break is paused");
    assert_eq!(clock.pending_hook, Some(HookEvent::BreakStart));

    let fired = clock.resume(T0 + 10);
    assert_eq!(fired, Some(HookEvent::BreakStart), "hook fires on resume");
    assert_eq!(clock.pending_hook, None);

    clock.pause(T0 + 11);
    let fired_again = clock.resume(T0 + 12);
    assert_eq!(fired_again, None, "hook fires only once");
}

/// Work of 3 seconds, break of 3 seconds, manual advance: after the deadline
/// fires, status reports a paused break with the full 3 seconds remaining.
#[test]
fn test_deadline_transition_pauses_without_auto_advance() {
    let mut clock = fresh_daemon_clock();
    let start = Command::Start {
        work_seconds: 3,
        break_seconds: 3,
        long_break_seconds: 900,
        sessions: 4,
        auto_advance: AutoAdvance::Never,
    };
    let o = handle_command(&mut clock, &start, T0, &defaults(), &sound_off(), &notif_off());
    assert!(o.response.success);

    // Nothing due before the deadline.
    assert_eq!(tick(&mut clock, T0 + 2, &sound_off(), &notif_off()), None);

    // At the deadline the daemon takes the same transition a skip would.
    let t = tick(&mut clock, T0 + 3, &sound_off(), &notif_off()).expect("deadline fired");
    assert_eq!(t.fired, None);

    let status = clock.get_status_output(&Format::Waybar, T0 + 3);
    match status {
        StatusOutput::Waybar { text, class, .. } => {
            assert_eq!(class, "break-paused");
            assert!(text.contains("00:03"), "full break duration remains: {}", text);
        }
        _ => panic!("expected waybar status"),
    }
    assert!(clock.is_paused);
    assert_eq!(clock.remaining_seconds(T0 + 3), 3);
}

/// The same setup with auto-advance: the break starts running at once and
/// its remaining time then falls strictly below the full 3 seconds.
#[test]
fn test_deadline_transition_runs_with_auto_advance() {
    let mut clock = fresh_daemon_clock();
    let start = Command::Start {
        work_seconds: 3,
        break_seconds: 3,
        long_break_seconds: 900,
        sessions: 4,
        auto_advance: AutoAdvance::All,
    };
    handle_command(&mut clock, &start, T0, &defaults(), &sound_off(), &notif_off());

    let t = tick(&mut clock, T0 + 3, &sound_off(), &notif_off()).expect("deadline fired");
    assert_eq!(t.fired, Some(HookEvent::BreakStart));

    assert!(matches!(clock.phase, Phase::Break));
    assert!(!clock.is_paused);

    let status = clock.get_status_output(&Format::Waybar, T0 + 4);
    match status {
        StatusOutput::Waybar { class, .. } => assert_eq!(class, "break"),
        _ => panic!("expected waybar status"),
    }
    assert!(clock.remaining_seconds(T0 + 4) < 3);
}

/// A toggle on a daemon that never saw a start seeds the durations from the
/// configured defaults before resuming, rather than resuming a nothing-long
/// clock.
#[test]
fn test_toggle_seeds_defaults_on_fresh_daemon() {
    // A daemon restored from a degenerate state file: paused, never started.
    let mut clock = TimerState::new(1, 1, 1, 1);
    let d = defaults();

    let o = handle_command(&mut clock, &Command::Toggle, T0, &d, &sound_off(), &notif_off());
    assert!(o.response.success);
    assert_eq!(o.response.message, "Timer resumed");

    assert!(!clock.is_paused);
    assert_eq!(clock.work_seconds, d.work_seconds);
    assert_eq!(clock.break_seconds, d.break_seconds);
    assert_eq!(clock.long_break_seconds, d.long_break_seconds);
    assert_eq!(clock.sessions_until_long_break, d.sessions);
    assert_eq!(clock.duration_seconds, d.work_seconds);
    assert_eq!(clock.remaining_seconds(T0), d.work_seconds);
}

/// A toggle on a clock that has run does not reseed; it just pauses and
/// resumes.
#[test]
fn test_toggle_pause_and_resume() {
    let mut clock = fresh_daemon_clock();
    let start = Command::Start {
        work_seconds: 6 * 60,
        break_seconds: 60,
        long_break_seconds: 900,
        sessions: 4,
        auto_advance: AutoAdvance::Never,
    };
    handle_command(&mut clock, &start, T0, &defaults(), &sound_off(), &notif_off());
    assert!(!clock.is_paused);

    let o = handle_command(&mut clock, &Command::Toggle, T0 + 10, &defaults(), &sound_off(), &notif_off());
    assert_eq!(o.response.message, "Timer paused");
    assert!(clock.is_paused);
    assert_eq!(clock.work_seconds, 6 * 60, "toggle must not reseed a started clock");

    let o2 = handle_command(&mut clock, &Command::Toggle, T0 + 99, &defaults(), &sound_off(), &notif_off());
    assert_eq!(o2.response.message, "Timer resumed");
    assert!(!clock.is_paused);
    assert_eq!(clock.remaining_seconds(T0 + 99), 6 * 60 - 10);
}

#[test]
fn test_start_rejects_bad_durations_and_leaves_state() {
    let mut clock = fresh_daemon_clock();
    let before = clock;
    let start = Command::Start {
        work_seconds: 0,
        break_seconds: 300,
        long_break_seconds: 900,
        sessions: 4,
        auto_advance: AutoAdvance::Never,
    };
    let o = handle_command(&mut clock, &start, T0, &defaults(), &sound_off(), &notif_off());
    assert!(!o.response.success);
    assert_eq!(o.response.message, "Work duration must be greater than 0");
    assert!(!o.persist);
    assert_eq!(clock, before);
}

#[test]
fn test_start_message_names_minutes() {
    let mut clock = fresh_daemon_clock();
    let start = Command::Start {
        work_seconds: 25 * 60,
        break_seconds: 5 * 60,
        long_break_seconds: 15 * 60,
        sessions: 4,
        auto_advance: AutoAdvance::Never,
    };
    let o = handle_command(&mut clock, &start, T0, &defaults(), &sound_off(), &notif_off());
    assert_eq!(
        o.response.message,
        "Pomodoro started: 25.0min work, 5.0min break, 15.0min long break every 4 sessions"
    );
    assert_eq!(o.fired, Some(HookEvent::WorkStart));
    assert!(o.persist);
}

#[test]
fn test_skip_reports_notice_and_sound_when_enabled() {
    let mut clock = fresh_daemon_clock();
    let start = Command::Start {
        work_seconds: 1500,
        break_seconds: 300,
        long_break_seconds: 900,
        sessions: 4,
        auto_advance: AutoAdvance::Never,
    };
    handle_command(&mut clock, &start, T0, &defaults(), &sound_off(), &notif_off());

    let sound_on = SoundConfig::default();
    let notif_on = NotificationConfig::default();
    let o = handle_command(&mut clock, &Command::Skip, T0 + 1, &defaults(), &sound_on, &notif_on);
    assert!(o.response.success);
    assert_eq!(o.response.message, "Skipped to next phase");
    assert_eq!(o.notice, Some(Notice::BreakStart));
    assert_eq!(
        o.sound,
        Some(SoundPlan::Embedded(tomat::phase::SoundType::WorkToBreak))
    );
    assert_eq!(o.fired, None, "manual advance defers the break hook");
    assert!(matches!(clock.phase, Phase::Break));
    assert!(clock.is_paused);
}

#[test]
fn test_pause_resume_replies() {
    let mut clock = fresh_daemon_clock();
    let o = handle_command(&mut clock, &Command::Pause, T0, &defaults(), &sound_off(), &notif_off());
    assert!(o.response.success);
    assert_eq!(o.response.message, "Timer is already paused");
    assert!(!o.persist);

    handle_command(&mut clock, &Command::Resume, T0, &defaults(), &sound_off(), &notif_off());
    assert!(!clock.is_paused);
    let o2 = handle_command(&mut clock, &Command::Resume, T0 + 1, &defaults(), &sound_off(), &notif_off());
    assert_eq!(o2.response.message, "Timer is already running");

    let o3 = handle_command(&mut clock, &Command::Pause, T0 + 2, &defaults(), &sound_off(), &notif_off());
    assert_eq!(o3.response.message, "Timer paused");
    assert!(o3.persist);
}

#[test]
fn test_shutdown_acknowledges_then_exits() {
    let mut clock = fresh_daemon_clock();
    let o = handle_command(&mut clock, &Command::Shutdown, T0, &defaults(), &sound_off(), &notif_off());
    assert!(o.response.success);
    assert_eq!(o.response.message, "Shutting down");
    assert!(o.shutdown);
}

#[test]
fn test_status_plain_returns_bare_text() {
    let mut clock = fresh_daemon_clock();
    let o = handle_command(
        &mut clock,
        &Command::Status { format: Format::Plain },
        T0,
        &defaults(),
        &sound_off(),
        &notif_off(),
    );
    match o.response.data {
        ResponseData::Text(t) => assert_eq!(t, "\u{1f345} 25:00 \u{23f8}"),
        _ => panic!("plain status should be bare text"),
    }
    assert_eq!(o.response.message, "Status retrieved");
}

#[test]
fn test_status_i3status_rs_shape() {
    let mut clock = fresh_daemon_clock();
    handle_command(
        &mut clock,
        &Command::Start {
            work_seconds: 6,
            break_seconds: 6,
            long_break_seconds: 6,
            sessions: 4,
            auto_advance: AutoAdvance::Never,
        },
        T0,
        &defaults(),
        &sound_off(),
        &notif_off(),
    );
    let o = handle_command(
        &mut clock,
        &Command::Status { format: Format::I3statusRs },
        T0,
        &defaults(),
        &sound_off(),
        &notif_off(),
    );
    match o.response.data {
        ResponseData::Status(StatusOutput::I3statusRs { text, short_text, icon, state }) => {
            assert!(text.contains("\u{1f345}"));
            assert!(text.contains("\u{25b6}"));
            assert_eq!(short_text.as_deref(), Some(text.as_str()));
            assert_eq!(icon, None);
            assert_eq!(state.as_deref(), Some("Critical"));
        }
        _ => panic!("expected an i3status-rs snapshot"),
    }
}

#[test]
fn test_start_message_rounds_fractional_minutes() {
    // 30 seconds is half a minute; 3 seconds rounds up to a tenth.
    let mut clock = fresh_daemon_clock();
    let start = Command::Start {
        work_seconds: 30,
        break_seconds: 3,
        long_break_seconds: 12,
        sessions: 4,
        auto_advance: AutoAdvance::Never,
    };
    let o = handle_command(&mut clock, &start, T0, &defaults(), &sound_off(), &notif_off());
    assert_eq!(
        o.response.message,
        "Pomodoro started: 0.5min work, 0.1min break, 0.2min long break every 4 sessions"
    );
}

#[test]
fn test_percentage_is_elapsed_over_duration() {
    let mut clock = fresh_daemon_clock();
    handle_command(
        &mut clock,
        &Command::Start {
            work_seconds: 200,
            break_seconds: 60,
            long_break_seconds: 900,
            sessions: 4,
            auto_advance: AutoAdvance::Never,
        },
        T0,
        &defaults(),
        &sound_off(),
        &notif_off(),
    );
    match clock.get_status_output(&Format::Waybar, T0 + 100) {
        StatusOutput::Waybar { percentage, .. } => assert_eq!(percentage, 50),
        _ => panic!("expected waybar status"),
    }
    match clock.get_status_output(&Format::Waybar, T0 + 150) {
        StatusOutput::Waybar { percentage, .. } => assert_eq!(percentage, 75),
        _ => panic!("expected waybar status"),
    }
}

#[test]
fn test_default_config() {
    let timer = TimerConfig::default();
    assert_eq!(timer.work_seconds, 25 * 60);
    assert_eq!(timer.break_seconds, 5 * 60);
    assert_eq!(timer.long_break_seconds, 15 * 60);
    assert_eq!(timer.sessions, 4);
    assert_eq!(timer.auto_advance, AutoAdvance::Never);

    let notification = NotificationConfig::default();
    assert!(notification.enabled);
    assert_eq!(notification.icon, "auto");
    assert_eq!(notification.timeout, 5000);
}

#[test]
fn test_format_from_str() {
    assert_eq!(Format::from_str("waybar"), Ok(Format::Waybar));
    assert_eq!(Format::from_str("Waybar"), Ok(Format::Waybar));
    assert_eq!(Format::from_str("plain"), Ok(Format::Plain));
    assert_eq!(Format::from_str("i3status-rs"), Ok(Format::I3statusRs));
    assert_eq!(Format::from_str("I3STATUS-RS"), Ok(Format::I3statusRs));
    let err = Format::from_str("invalid").unwrap_err();
    assert_eq!(
        err,
        "Unknown format: 'invalid'. Supported formats: waybar, plain, i3status-rs"
    );
}

#[test]
fn test_session_cycle_long_break_and_reset() {
    let mut clock = fresh_daemon_clock();
    handle_command(
        &mut clock,
        &Command::Start {
            work_seconds: 3,
            break_seconds: 3,
            long_break_seconds: 9,
            sessions: 2,
            auto_advance: AutoAdvance::All,
        },
        T0,
        &defaults(),
        &sound_off(),
        &notif_off(),
    );
    // First work completion: an ordinary break.
    tick(&mut clock, T0 + 3, &sound_off(), &notif_off()).unwrap();
    assert!(matches!(clock.phase, Phase::Break));
    assert_eq!(clock.current_session_count, 1);
    // Break completes, back to work.
    tick(&mut clock, T0 + 6, &sound_off(), &notif_off()).unwrap();
    assert!(matches!(clock.phase, Phase::Work));
    // Second work completion reaches the target: the long break, counter reset.
    tick(&mut clock, T0 + 9, &sound_off(), &notif_off()).unwrap();
    assert!(matches!(clock.phase, Phase::LongBreak));
    assert_eq!(clock.current_session_count, 0);
    assert_eq!(clock.duration_seconds, 9);
}
