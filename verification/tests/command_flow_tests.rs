//! The command flows the daemon serves, driven end to end through the
//! library: requests are parsed, handled against the clock at explicit
//! times, and the replies rendered and read back as JSON.

use tomat::clock::TimerState;
use tomat::config::{NotificationConfig, SoundConfig, TimerConfig};
use tomat::daemon::{handle_command, tick, HandleOutcome};
use tomat::phase::AutoAdvance;
use tomat::protocol::{build_request, parse_request, Command};
use tomat::response::render_response;
use tomat::status::Format;

const T0: u64 = 1_700_000_000;

struct Driver {
    clock: TimerState,
    defaults: TimerConfig,
    sound: SoundConfig,
    notification: NotificationConfig,
}

impl Driver {
    fn fresh() -> Driver {
        let defaults = TimerConfig::default();
        Driver {
            clock: TimerState::new(
                defaults.work_seconds,
                defaults.break_seconds,
                defaults.long_break_seconds,
                defaults.sessions,
            ),
            defaults,
            sound: SoundConfig { enabled: false, ..SoundConfig::default() },
            notification: NotificationConfig { enabled: false, ..NotificationConfig::default() },
        }
    }

    /// One client exchange: a request line in, a reply line out.
    fn send(&mut self, cmd: Command, now: u64) -> HandleOutcome {
        let line = build_request(&cmd);
        let parsed = parse_request(&line).expect("the daemon reads back what a client builds");
        handle_command(&mut self.clock, &parsed, now, &self.defaults, &self.sound, &self.notification)
    }

    fn status_json(&mut self, format: Format, now: u64) -> serde_json::Value {
        let o = self.send(Command::Status { format }, now);
        let line = render_response(&o.response);
        let v: serde_json::Value = serde_json::from_str(&line).unwrap();
        v["data"].clone()
    }

    fn start(&mut self, work: i64, break_time: i64, auto_advance: AutoAdvance, now: u64) {
        let o = self.send(
            Command::Start {
                work_seconds: work,
                break_seconds: break_time,
                long_break_seconds: 900,
                sessions: 4,
                auto_advance,
            },
            now,
        );
        assert!(o.response.success, "start failed: {}", o.response.message);
    }
}

#[test]
fn test_precise_timer_completion() {
    // Three seconds of work, a ten-minute break, manual advance.
    let mut d = Driver::fresh();
    d.start(3, 600, AutoAdvance::Never, T0);

    // The deadline fires exactly at T0+3 and lands in a paused break.
    let sound = d.sound.clone();
    let notification = d.notification.clone();
    tick(&mut d.clock, T0 + 3, &sound, &notification).expect("deadline fired");

    let data = d.status_json(Format::Waybar, T0 + 3);
    assert_eq!(data["class"], "break-paused", "Should be in paused break phase");
    assert!(data["text"].as_str().unwrap().contains("\u{2615}"), "Should show break icon");
    assert!(data["text"].as_str().unwrap().contains("\u{23f8}"), "Should show pause symbol");
}

#[test]
fn test_auto_advance_true_continues_automatically() {
    let mut d = Driver::fresh();
    d.start(3, 600, AutoAdvance::All, T0);

    let sound = d.sound.clone();
    let notification = d.notification.clone();
    tick(&mut d.clock, T0 + 3, &sound, &notification).expect("deadline fired");

    let data = d.status_json(Format::Waybar, T0 + 3);
    assert_eq!(data["class"], "break", "Should be in running break phase");
    assert!(data["text"].as_str().unwrap().contains("\u{2615}"), "Should show break icon");
    assert!(data["text"].as_str().unwrap().contains("\u{25b6}"), "Should show play symbol");
}

#[test]
fn test_auto_advance_false_pauses_after_transition() {
    let mut d = Driver::fresh();
    d.start(3, 600, AutoAdvance::Never, T0);

    let sound = d.sound.clone();
    let notification = d.notification.clone();
    tick(&mut d.clock, T0 + 3, &sound, &notification).expect("deadline fired");

    let data = d.status_json(Format::Waybar, T0 + 3);
    assert_eq!(data["class"], "break-paused", "Should be in paused break phase");
}

#[test]
fn test_explicit_pause_resume_commands() {
    let mut d = Driver::fresh();
    d.start(6 * 60, 60, AutoAdvance::Never, T0);

    d.send(Command::Pause, T0 + 1);
    let data = d.status_json(Format::Waybar, T0 + 1);
    assert_eq!(data["class"], "work-paused");

    d.send(Command::Resume, T0 + 2);
    let data = d.status_json(Format::Waybar, T0 + 2);
    assert_eq!(data["class"], "work");
}

#[test]
fn test_pause_resume_error_handling() {
    // Pausing a paused clock and resuming a running one both succeed as
    // no-ops with a clear message.
    let mut d = Driver::fresh();
    let o = d.send(Command::Pause, T0);
    assert!(o.response.success);
    d.send(Command::Resume, T0);
    let o2 = d.send(Command::Resume, T0 + 1);
    assert!(o2.response.success);
}

#[test]
fn test_toggle_still_works_with_new_commands() {
    let mut d = Driver::fresh();
    d.start(6 * 60, 60, AutoAdvance::Never, T0);

    d.send(Command::Toggle, T0 + 1);
    let data = d.status_json(Format::Waybar, T0 + 1);
    assert_eq!(data["class"], "work-paused", "Toggle should pause timer");

    d.send(Command::Toggle, T0 + 2);
    let data = d.status_json(Format::Waybar, T0 + 2);
    assert_eq!(data["class"], "work", "Toggle should resume timer");
}

#[test]
fn test_toggle_from_paused_with_auto_advance_false() {
    let mut d = Driver::fresh();
    d.start(3, 600, AutoAdvance::Never, T0);

    let sound = d.sound.clone();
    let notification = d.notification.clone();
    tick(&mut d.clock, T0 + 3, &sound, &notification).expect("deadline fired");
    let data = d.status_json(Format::Waybar, T0 + 3);
    assert_eq!(data["class"], "break-paused");

    d.send(Command::Toggle, T0 + 4);
    let data = d.status_json(Format::Waybar, T0 + 4);
    assert_eq!(data["class"], "break");
}

#[test]
fn test_manual_skip_respects_auto_advance_setting() {
    let mut d = Driver::fresh();
    d.start(6 * 60, 60, AutoAdvance::Never, T0);
    d.send(Command::Skip, T0 + 1);
    let data = d.status_json(Format::Waybar, T0 + 1);
    assert_eq!(
        data["class"], "break-paused",
        "Manual skip with manual advance should pause in break"
    );

    d.send(Command::Stop, T0 + 2);
    d.start(6 * 60, 60, AutoAdvance::All, T0 + 3);
    d.send(Command::Skip, T0 + 4);
    let data = d.status_json(Format::Waybar, T0 + 4);
    assert_eq!(
        data["class"], "break",
        "Manual skip with full auto-advance should continue in break"
    );
}

#[test]
fn test_fractional_minutes_work_correctly() {
    // 0.05 minutes of work is three seconds.
    let mut d = Driver::fresh();
    d.start(3, 600, AutoAdvance::Never, T0);
    let data = d.status_json(Format::Waybar, T0);
    assert!(
        data["text"].as_str().unwrap().contains("00:03"),
        "Timer should start at 3 seconds for 0.05 minutes. Got: {}",
        data["text"]
    );
}

#[test]
fn test_status_default_format_returns_json() {
    let mut d = Driver::fresh();
    d.start(6 * 60, 60, AutoAdvance::Never, T0);
    let data = d.status_json(Format::default(), T0);
    assert!(data.is_object(), "Default format should return JSON object");
    assert!(data.get("text").is_some(), "Should have text field");
    assert!(data.get("class").is_some(), "Should have class field");
    assert!(data.get("tooltip").is_some(), "Should have tooltip field");
    assert!(data.get("percentage").is_some(), "Should have percentage field");
}

#[test]
fn test_status_waybar_format_returns_json() {
    let mut d = Driver::fresh();
    d.start(6 * 60, 60, AutoAdvance::Never, T0);
    let data = d.status_json(Format::Waybar, T0);
    assert!(data.is_object(), "Waybar format should return JSON object");
    assert!(data.get("text").is_some(), "Should have text field");
    assert!(data.get("class").is_some(), "Should have class field");
    assert!(data.get("tooltip").is_some(), "Should have tooltip field");
    assert!(data.get("percentage").is_some(), "Should have percentage field");
}

#[test]
fn test_status_plain_format_returns_text() {
    let mut d = Driver::fresh();
    d.start(6 * 60, 60, AutoAdvance::Never, T0);
    let data = d.status_json(Format::Plain, T0);
    let text = data.as_str().unwrap_or_else(|| {
        panic!("Plain format should return plain text string, got: {:?}", data)
    });
    assert!(text.contains("\u{1f345}"), "Plain format should contain phase icon");
    assert!(text.contains("\u{25b6}"), "Plain format should contain state symbol");
    assert!(text.contains(":"), "Plain format should contain time separator");
}

#[test]
fn test_status_plain_format_shows_pause_symbol() {
    let mut d = Driver::fresh();
    d.start(3, 600, AutoAdvance::Never, T0);
    let sound = d.sound.clone();
    let notification = d.notification.clone();
    tick(&mut d.clock, T0 + 3, &sound, &notification).expect("deadline fired");

    let data = d.status_json(Format::Plain, T0 + 3);
    let text = data.as_str().expect("Should be string");
    assert!(text.contains("\u{2615}"), "Should contain break icon");
    assert!(text.contains("\u{23f8}"), "Should contain pause symbol");
}

#[test]
fn test_status_plain_format_shows_play_symbol() {
    let mut d = Driver::fresh();
    d.start(6 * 60, 60, AutoAdvance::All, T0);
    let data = d.status_json(Format::Plain, T0);
    let text = data.as_str().expect("Should be string");
    assert!(text.contains("\u{1f345}"), "Should contain work icon");
    assert!(text.contains("\u{25b6}"), "Should contain play symbol");
}

#[test]
fn test_status_invalid_format_returns_error() {
    let result = Format::from_str("invalid");
    assert!(result.is_err());
    assert!(result.unwrap_err().contains("Unknown format"));
}

#[test]
fn test_status_formats_show_same_content() {
    let mut d = Driver::fresh();
    d.start(6 * 60, 60, AutoAdvance::Never, T0);
    let waybar = d.status_json(Format::Waybar, T0);
    let plain = d.status_json(Format::Plain, T0);
    assert_eq!(
        waybar["text"].as_str().unwrap(),
        plain.as_str().unwrap(),
        "Waybar and plain formats should show same text content"
    );
}

#[test]
fn test_status_i3status_rs_format() {
    let mut d = Driver::fresh();
    d.start(6 * 60, 60, AutoAdvance::Never, T0);
    let data = d.status_json(Format::I3statusRs, T0);
    assert!(data.is_object(), "i3status-rs format should return JSON object");
    assert!(data.get("text").is_some(), "Should have text field");
    assert!(data.get("short_text").is_some(), "Should have short_text field");
    assert!(data.get("state").is_some(), "Should have state field");
    let text = data["text"].as_str().unwrap();
    assert!(text.contains("\u{1f345}"), "Should contain work icon");
    assert!(text.contains("\u{25b6}"), "Should contain play symbol");
    assert_eq!(data["state"], "Critical", "Work phase should have Critical state");
}
