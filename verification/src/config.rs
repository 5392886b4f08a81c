//! Configuration data the daemon consults: default timer parameters, the
//! notification settings, and the sound settings with the rule that picks a
//! sound source for a transition. Reading the configuration file is the
//! shell's business; the values arrive here as plain data.

use vstd::prelude::*;

use crate::MAX_TIMESTAMP;
use crate::clock::{MAX_DURATION_SECONDS, MAX_SESSIONS};
use crate::phase::{AutoAdvance, HookEvent, SoundType};

verus! {

/// The timer parameters a `start` or a first `toggle` falls back to when the
/// caller gives none, in whole seconds.
#[derive(Clone, Copy, Debug, PartialEq, Eq, Structural)]
pub struct TimerConfig {
    pub work_seconds: u64,
    pub break_seconds: u64,
    pub long_break_seconds: u64,
    pub sessions: u32,
    pub auto_advance: AutoAdvance,
}

impl TimerConfig {
    /// The defaults are within the validated ranges.
    pub open spec fn wf(self) -> bool {
        &&& 1 <= self.work_seconds <= MAX_DURATION_SECONDS
        &&& 1 <= self.break_seconds <= MAX_DURATION_SECONDS
        &&& 1 <= self.long_break_seconds <= MAX_DURATION_SECONDS
        &&& 1 <= self.sessions <= MAX_SESSIONS
    }
}

impl Default for TimerConfig {
    /// 25 minutes of work, 5 of break, 15 of long break, a long break every
    /// 4 sessions, no automatic advance.
    fn default() -> (d: TimerConfig)
        ensures
            d == (TimerConfig {
                work_seconds: 1500u64,
                break_seconds: 300u64,
                long_break_seconds: 900u64,
                sessions: 4u32,
                auto_advance: AutoAdvance::Never,
            }),
            d.wf(),
    {
        TimerConfig {
            work_seconds: 1500,
            break_seconds: 300,
            long_break_seconds: 900,
            sessions: default_sessions(),
            auto_advance: AutoAdvance::Never,
        }
    }
}

/// Desktop notification settings. The icon is `"auto"` for the embedded
/// icon, `"theme"` for the system theme's, or a path to a custom one.
#[derive(Clone, Debug, PartialEq, Eq)]
pub struct NotificationConfig {
    pub enabled: bool,
    pub icon: String,
    pub timeout: u32,
}

impl Default for NotificationConfig {
    /// Enabled, the embedded icon, a 5-second timeout.
    fn default() -> (c: NotificationConfig)
        ensures
            c.enabled,
            c.icon@ == "auto"@,
            c.timeout == 5000,
    {
        NotificationConfig {
            enabled: default_notification_enabled(),
            icon: default_icon(),
            timeout: default_timeout(),
        }
    }
}

/// Sound settings: whether to play at all, whether to use the system beep
/// instead of files, whether the embedded sounds may be used, and optional
/// custom files per transition.
#[derive(Clone, Debug, PartialEq, Eq)]
pub struct SoundConfig {
    pub enabled: bool,
    pub system_beep: bool,
    pub use_embedded: bool,
    pub work_to_break: Option<String>,
    pub break_to_work: Option<String>,
    pub work_to_long_break: Option<String>,
}

impl Default for SoundConfig {
    /// Enabled, no system beep, embedded sounds, no custom files.
    fn default() -> (c: SoundConfig)
        ensures
            c.enabled,
            !c.system_beep,
            c.use_embedded,
            c.work_to_break is None,
            c.break_to_work is None,
            c.work_to_long_break is None,
    {
        SoundConfig {
            enabled: true,
            system_beep: false,
            use_embedded: default_use_embedded(),
            work_to_break: None,
            break_to_work: None,
            work_to_long_break: None,
        }
    }
}

/// What the audio collaborator should play for a transition.
#[derive(Clone, Debug, PartialEq, Eq)]
pub enum SoundPlan {
    Beep,
    CustomFile(String),
    Embedded(SoundType),
}

impl SoundConfig {
    /// The custom file configured for the given transition, if any.
    pub open spec fn spec_custom_file(self, sound: SoundType) -> Option<String> {
        match sound {
            SoundType::WorkToBreak => self.work_to_break,
            SoundType::BreakToWork => self.break_to_work,
            SoundType::WorkToLongBreak => self.work_to_long_break,
        }
    }

    /// The sound source picked for a transition: the system beep when so
    /// configured, else the custom file for this transition if one is set,
    /// else the embedded sound when allowed, else the beep.
    pub open spec fn spec_sound_plan(self, sound: SoundType) -> SoundPlan {
        if self.system_beep {
            SoundPlan::Beep
        } else {
            match self.spec_custom_file(sound) {
                Some(f) => SoundPlan::CustomFile(f),
                None => if self.use_embedded {
                    SoundPlan::Embedded(sound)
                } else {
                    SoundPlan::Beep
                },
            }
        }
    }

    /// Picks the sound source for a transition, as `spec_sound_plan` says.
    pub fn choose_sound(&self, sound: SoundType) -> (r: SoundPlan)
        ensures
            r == self.spec_sound_plan(sound),
    {
        if self.system_beep {
            return SoundPlan::Beep;
        }
        let custom = match sound {
            SoundType::WorkToBreak => &self.work_to_break,
            SoundType::BreakToWork => &self.break_to_work,
            SoundType::WorkToLongBreak => &self.work_to_long_break,
        };
        match custom {
            Some(f) => SoundPlan::CustomFile(f.clone()),
            None => {
                if self.use_embedded {
                    SoundPlan::Embedded(sound)
                } else {
                    SoundPlan::Beep
                }
            },
        }
    }
}

/// The external commands run on lifecycle events, and the timeout after
/// which a still-running one is forcibly terminated (0 means no timeout).
#[derive(Clone, Debug, PartialEq, Eq)]
pub struct HooksConfig {
    pub on_work_start: Option<String>,
    pub on_break_start: Option<String>,
    pub on_long_break_start: Option<String>,
    pub timeout_seconds: u32,
}

impl Default for HooksConfig {
    /// No commands, no timeout.
    fn default() -> (c: HooksConfig)
        ensures
            c.on_work_start is None,
            c.on_break_start is None,
            c.on_long_break_start is None,
            c.timeout_seconds == 0,
    {
        HooksConfig {
            on_work_start: None,
            on_break_start: None,
            on_long_break_start: None,
            timeout_seconds: 0,
        }
    }
}

impl HooksConfig {
    /// The command configured for the given event, if any.
    pub open spec fn spec_command_for(self, h: HookEvent) -> Option<String> {
        match h {
            HookEvent::WorkStart => self.on_work_start,
            HookEvent::BreakStart => self.on_break_start,
            HookEvent::LongBreakStart => self.on_long_break_start,
        }
    }

    /// Returns the command configured for the given event, if any.
    pub fn command_for(&self, h: HookEvent) -> (r: Option<String>)
        ensures
            r == self.spec_command_for(h),
    {
        let c = match h {
            HookEvent::WorkStart => &self.on_work_start,
            HookEvent::BreakStart => &self.on_break_start,
            HookEvent::LongBreakStart => &self.on_long_break_start,
        };
        match c {
            Some(cmd) => Some(cmd.clone()),
            None => None,
        }
    }
}

/// Everything the daemon is configured with.
#[derive(Clone, Debug, PartialEq, Eq)]
pub struct Config {
    pub timer: TimerConfig,
    pub sound: SoundConfig,
    pub notification: NotificationConfig,
    pub hooks: HooksConfig,
}

impl Default for Config {
    /// Every section at its own defaults.
    fn default() -> (c: Config)
        ensures
            c.timer == (TimerConfig {
                work_seconds: 1500u64,
                break_seconds: 300u64,
                long_break_seconds: 900u64,
                sessions: 4u32,
                auto_advance: AutoAdvance::Never,
            }),
            c.sound.enabled && !c.sound.system_beep && c.sound.use_embedded,
            c.sound.work_to_break is None,
            c.sound.break_to_work is None,
            c.sound.work_to_long_break is None,
            c.notification.enabled,
            c.notification.icon@ == "auto"@,
            c.notification.timeout == 5000,
            c.hooks.on_work_start is None,
            c.hooks.on_break_start is None,
            c.hooks.on_long_break_start is None,
            c.hooks.timeout_seconds == 0,
    {
        Config {
            timer: TimerConfig::default(),
            sound: SoundConfig::default(),
            notification: NotificationConfig::default(),
            hooks: HooksConfig::default(),
        }
    }
}

/// Where a notification icon comes from: the icon embedded in the program,
/// the system theme's timer icon, or a custom file.
#[derive(Clone, Debug, PartialEq, Eq)]
pub enum IconPlan {
    Embedded,
    Theme,
    CustomPath(String),
}

impl NotificationConfig {
    /// The icon source the configuration names: `"auto"` for the embedded
    /// icon, `"theme"` for the system theme's, anything else as a path.
    pub open spec fn spec_icon_plan(self) -> IconPlan {
        if self.icon@ == "auto"@ {
            IconPlan::Embedded
        } else if self.icon@ == "theme"@ {
            IconPlan::Theme
        } else {
            IconPlan::CustomPath(self.icon)
        }
    }

    /// Returns the icon source the configuration names.
    pub fn icon_plan(&self) -> (r: IconPlan)
        ensures
            r == self.spec_icon_plan(),
    {
        if self.icon == String::from_str("auto") {
            IconPlan::Embedded
        } else if self.icon == String::from_str("theme") {
            IconPlan::Theme
        } else {
            IconPlan::CustomPath(self.icon.clone())
        }
    }
}

/// The default number of sessions until a long break.
pub fn default_sessions() -> (r: u32)
    ensures
        r == 4,
{
    4
}

/// Whether desktop notifications are on by default.
pub fn default_notification_enabled() -> (r: bool)
    ensures
        r,
{
    true
}

/// The default notification icon choice.
pub fn default_icon() -> (r: String)
    ensures
        r@ == "auto"@,
{
    String::from_str("auto")
}

/// The default notification timeout, in milliseconds.
pub fn default_timeout() -> (r: u32)
    ensures
        r == 5000,
{
    5000
}

/// Whether the embedded sounds may be used by default.
pub fn default_use_embedded() -> (r: bool)
    ensures
        r,
{
    true
}

/// Relies on `std::time::SystemTime::now` and `duration_since`: seconds since
/// the Unix epoch, or 0 if the system clock is before it. The result depends
/// on the wall clock, so nothing is promised of it.
#[verifier::external_body]
pub fn current_timestamp() -> u64 {
    match std::time::SystemTime::now().duration_since(std::time::UNIX_EPOCH) {
        Ok(d) => d.as_secs(),
        Err(_) => 0,
    }
}

/// The current wall-clock time, clamped into the range the clock accepts.
pub fn now_timestamp() -> (r: u64)
    ensures
        r <= MAX_TIMESTAMP,
{
    let t = current_timestamp();
    if t > MAX_TIMESTAMP {
        MAX_TIMESTAMP
    } else {
        t
    }
}

} // verus!
