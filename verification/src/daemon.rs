//! The daemon's decision core: one function that takes the clock, one parsed
//! command, and the current time, mutates the clock, and says what the shell
//! around it must do — reply, persist, fire a hook, notify, play a sound, or
//! shut down. The deadline path (`tick`) reuses the same transition the
//! explicit `skip` takes. All I/O — sockets, files, processes — stays
//! outside.

use vstd::prelude::*;

use crate::MAX_TIMESTAMP;
use crate::clock::TimerState;
use crate::config::{NotificationConfig, SoundConfig, SoundPlan, TimerConfig};
use crate::phase::{HookEvent, Notice, Phase, spec_start_hook};
use crate::protocol::{Command, spec_validate, validate_timer_params};
use crate::response::{Response, ResponseData};
use crate::status::{
    Format, minutes_tenths_text, spec_display_text, spec_minutes_tenths, status_matches,
};
use crate::numtext::dec_str;
use crate::numtext::u64_to_string;

verus! {

/// What the shell must do after one command: send the reply, persist the
/// clock if it changed, fire a deferred or immediate hook, show a notice,
/// play a sound, and exit the loop on a shutdown.
#[derive(Clone, Debug, PartialEq, Eq)]
pub struct HandleOutcome {
    pub response: Response,
    pub persist: bool,
    pub fired: Option<HookEvent>,
    pub notice: Option<Notice>,
    pub sound: Option<SoundPlan>,
    pub shutdown: bool,
}

/// What the shell must do after a deadline fired: the transition's notice,
/// sound, and immediately-fired hook.
#[derive(Clone, Debug, PartialEq, Eq)]
pub struct TickOutcome {
    pub fired: Option<HookEvent>,
    pub notice: Option<Notice>,
    pub sound: Option<SoundPlan>,
}

/// The clock a validated `start` leaves behind: a fresh running work phase
/// with the given parameters and a counter at zero.
pub open spec fn spec_started(
    w: u64,
    b: u64,
    l: u64,
    sess: u32,
    m: crate::phase::AutoAdvance,
    now: u64,
) -> TimerState {
    TimerState {
        phase: Phase::Work,
        start_time: now,
        duration_seconds: w,
        work_seconds: w,
        break_seconds: b,
        long_break_seconds: l,
        sessions_until_long_break: sess,
        current_session_count: 0,
        auto_advance: m,
        is_paused: false,
        paused_elapsed_seconds: None,
        pending_hook: None,
    }
}

/// The message acknowledging a `start`.
pub open spec fn spec_started_message(w: nat, b: nat, l: nat, sess: nat) -> Seq<char> {
    "Pomodoro started: "@ + spec_minutes_tenths(w) + "min work, "@ + spec_minutes_tenths(b)
        + "min break, "@ + spec_minutes_tenths(l) + "min long break every "@ + dec_str(sess)
        + " sessions"@
}

/// The clock with durations and the session target seeded from the
/// configured defaults, keeping everything else; the counter is reset when
/// the new target would leave it out of range.
pub open spec fn spec_seeded(c: TimerState, d: TimerConfig) -> TimerState {
    TimerState {
        work_seconds: d.work_seconds,
        break_seconds: d.break_seconds,
        long_break_seconds: d.long_break_seconds,
        sessions_until_long_break: d.sessions,
        duration_seconds: match c.phase {
            Phase::Work => d.work_seconds,
            Phase::Break => d.break_seconds,
            Phase::LongBreak => d.long_break_seconds,
        },
        current_session_count: if c.current_session_count < d.sessions {
            c.current_session_count
        } else {
            0u32
        },
        ..c
    }
}

/// The clock after a pause at `now`.
pub open spec fn spec_paused(c: TimerState, now: u64) -> TimerState {
    TimerState {
        is_paused: true,
        paused_elapsed_seconds: Some(c.spec_elapsed(now) as u64),
        ..c
    }
}

/// The clock after a resume at `now`.
pub open spec fn spec_resumed(c: TimerState, now: u64) -> TimerState {
    TimerState {
        start_time: c.spec_resume_start(now),
        is_paused: false,
        paused_elapsed_seconds: None,
        pending_hook: None,
        ..c
    }
}

impl TimerState {
    /// The transition algorithm together with the decisions about its side
    /// effects: mutates the clock exactly as `next_phase` does and returns
    /// the notice to show when notifications are on, the sound source to
    /// play when sound is on, and the start hook when it fired immediately.
    pub fn next_phase_with_configs(
        &mut self,
        sound_config: &SoundConfig,
        notification_config: &NotificationConfig,
        now: u64,
    ) -> (t: TickOutcome)
        requires
            old(self).wf(),
            now <= MAX_TIMESTAMP,
        ensures
            *final(self) == old(self).spec_advanced(now),
            final(self).wf(),
            t.fired == (if old(self).spec_advances() {
                Some(spec_start_hook(old(self).spec_target()))
            } else {
                None::<HookEvent>
            }),
            t.notice == (if notification_config.enabled {
                Some(old(self).spec_notice())
            } else {
                None::<Notice>
            }),
            t.sound == (if sound_config.enabled {
                Some(sound_config.spec_sound_plan(old(self).spec_sound()))
            } else {
                None::<SoundPlan>
            }),
    {
        let tr = self.next_phase(now);
        let notice = if notification_config.enabled {
            Some(tr.notice)
        } else {
            None
        };
        let sound = if sound_config.enabled {
            Some(sound_config.choose_sound(tr.sound))
        } else {
            None
        };
        TickOutcome { fired: tr.fired, notice, sound }
    }
}

/// The immutable snapshot a hook command receives through its environment:
/// the clock is never shared with the hook, only these values.
#[derive(Clone, Debug, PartialEq, Eq)]
pub struct HookSnapshot {
    pub phase: String,
    pub remaining_seconds: u64,
    pub session_count: u32,
    pub auto_advance: String,
}

/// Takes the snapshot of the clock at `now` that a hook command is handed.
pub fn hook_snapshot(clock: &TimerState, now: u64) -> (s: HookSnapshot)
    ensures
        s.phase@ == crate::statefile::phase_word(clock.phase),
        s.remaining_seconds == clock.spec_remaining(now),
        s.session_count == clock.current_session_count,
        s.auto_advance@ == crate::statefile::mode_word(clock.auto_advance),
{
    HookSnapshot {
        phase: String::from_str(crate::statefile::phase_text(clock.phase)),
        remaining_seconds: clock.remaining_seconds(now),
        session_count: clock.current_session_count,
        auto_advance: String::from_str(crate::statefile::mode_text(clock.auto_advance)),
    }
}

/// Returns the message acknowledging a `start`.
fn started_message(w: u64, b: u64, l: u64, sess: u32) -> (r: String)
    requires
        w <= 1000000,
        b <= 1000000,
        l <= 1000000,
    ensures
        r@ == spec_started_message(w as nat, b as nat, l as nat, sess as nat),
{
    let mut m = String::from_str("Pomodoro started: ");
    m.append(minutes_tenths_text(w).as_str());
    m.append("min work, ");
    m.append(minutes_tenths_text(b).as_str());
    m.append("min break, ");
    m.append(minutes_tenths_text(l).as_str());
    m.append("min long break every ");
    m.append(u64_to_string(sess as u64).as_str());
    m.append(" sessions");
    proof {
        assert(m@ =~= spec_started_message(w as nat, b as nat, l as nat, sess as nat));
    }
    m
}

/// An outcome that replies with the given message and does nothing else.
fn reply_only(success: bool, message: String) -> (o: HandleOutcome)
    ensures
        o.response.success == success,
        o.response.data is Null,
        o.response.message == message,
        !o.persist,
        o.fired is None,
        o.notice is None,
        o.sound is None,
        !o.shutdown,
{
    HandleOutcome {
        response: Response { success, data: ResponseData::Null, message },
        persist: false,
        fired: None,
        notice: None,
        sound: None,
        shutdown: false,
    }
}

/// Handles one parsed command against the clock at `now`: the request
/// protocol's whole decision table. The contract states, per command, the
/// clock left behind, the reply, and every side effect owed.
#[verifier::rlimit(100)]
#[verifier::spinoff_prover]
pub fn handle_command(
    clock: &mut TimerState,
    cmd: &Command,
    now: u64,
    defaults: &TimerConfig,
    sound_cfg: &SoundConfig,
    notif_cfg: &NotificationConfig,
) -> (o: HandleOutcome)
    requires
        old(clock).wf(),
        now <= MAX_TIMESTAMP,
        defaults.wf(),
    ensures
        final(clock).wf(),
        match *cmd {
            Command::Start {
                work_seconds: w,
                break_seconds: b,
                long_break_seconds: l,
                sessions: sess,
                auto_advance: m,
            } => match spec_validate(w as int, b as int, l as int, sess as int) {
                Some(msg) => {
                    &&& *final(clock) == *old(clock)
                    &&& !o.response.success
                    &&& o.response.data is Null
                    &&& o.response.message@ == msg
                    &&& !o.persist
                    &&& o.fired is None
                    &&& o.notice is None
                    &&& o.sound is None
                    &&& !o.shutdown
                },
                None => {
                    &&& *final(clock) == spec_started(w as u64, b as u64, l as u64, sess as u32, m, now)
                    &&& o.response.success
                    &&& o.response.data is Null
                    &&& o.response.message@ == spec_started_message(
                        w as nat,
                        b as nat,
                        l as nat,
                        sess as nat,
                    )
                    &&& o.persist
                    &&& o.fired == Some(HookEvent::WorkStart)
                    &&& o.notice is None
                    &&& o.sound is None
                    &&& !o.shutdown
                },
            },
            Command::Stop => {
                &&& *final(clock) == (TimerState {
                    phase: Phase::Work,
                    start_time: 0,
                    duration_seconds: old(clock).work_seconds,
                    current_session_count: 0,
                    is_paused: true,
                    paused_elapsed_seconds: None::<u64>,
                    pending_hook: None::<HookEvent>,
                    ..*old(clock)
                })
                &&& o.response.success
                &&& o.response.data is Null
                &&& o.response.message@ == "Timer stopped"@
                &&& o.persist
                &&& o.fired is None
                &&& o.notice is None
                &&& o.sound is None
                &&& !o.shutdown
            },
            Command::Status { format } => {
                &&& *final(clock) == *old(clock)
                &&& o.response.success
                &&& (match format {
                    Format::Plain => o.response.data matches ResponseData::Text(t) && t@
                        == spec_display_text(
                        old(clock).phase,
                        old(clock).is_paused,
                        old(clock).spec_remaining(now) as nat,
                    ),
                    _ => o.response.data matches ResponseData::Status(st) && status_matches(
                        st,
                        *old(clock),
                        format,
                        now,
                    ),
                })
                &&& o.response.message@ == "Status retrieved"@
                &&& !o.persist
                &&& o.fired is None
                &&& o.notice is None
                &&& o.sound is None
                &&& !o.shutdown
            },
            Command::Skip => {
                &&& *final(clock) == old(clock).spec_advanced(now)
                &&& o.response.success
                &&& o.response.data is Null
                &&& o.response.message@ == "Skipped to next phase"@
                &&& o.persist
                &&& o.fired == (if old(clock).spec_advances() {
                    Some(spec_start_hook(old(clock).spec_target()))
                } else {
                    None::<HookEvent>
                })
                &&& o.notice == (if notif_cfg.enabled {
                    Some(old(clock).spec_notice())
                } else {
                    None::<Notice>
                })
                &&& o.sound == (if sound_cfg.enabled {
                    Some(sound_cfg.spec_sound_plan(old(clock).spec_sound()))
                } else {
                    None::<SoundPlan>
                })
                &&& !o.shutdown
            },
            Command::Pause => if old(clock).is_paused {
                &&& *final(clock) == *old(clock)
                &&& o.response.success
                &&& o.response.data is Null
                &&& o.response.message@ == "Timer is already paused"@
                &&& !o.persist
                &&& o.fired is None
                &&& o.notice is None
                &&& o.sound is None
                &&& !o.shutdown
            } else {
                &&& *final(clock) == spec_paused(*old(clock), now)
                &&& o.response.success
                &&& o.response.data is Null
                &&& o.response.message@ == "Timer paused"@
                &&& o.persist
                &&& o.fired is None
                &&& o.notice is None
                &&& o.sound is None
                &&& !o.shutdown
            },
            Command::Resume => if !old(clock).is_paused {
                &&& *final(clock) == *old(clock)
                &&& o.response.success
                &&& o.response.data is Null
                &&& o.response.message@ == "Timer is already running"@
                &&& !o.persist
                &&& o.fired is None
                &&& o.notice is None
                &&& o.sound is None
                &&& !o.shutdown
            } else {
                &&& *final(clock) == spec_resumed(*old(clock), now)
                &&& o.response.success
                &&& o.response.data is Null
                &&& o.response.message@ == "Timer resumed"@
                &&& o.persist
                &&& o.fired == old(clock).pending_hook
                &&& o.notice is None
                &&& o.sound is None
                &&& !o.shutdown
            },
            Command::Toggle => if old(clock).is_paused {
                ({
                    let seeded = if old(clock).start_time == 0 && old(
                        clock,
                    ).paused_elapsed_seconds is None {
                        spec_seeded(*old(clock), *defaults)
                    } else {
                        *old(clock)
                    };
                    &&& *final(clock) == spec_resumed(seeded, now)
                    &&& o.response.success
                    &&& o.response.data is Null
                    &&& o.response.message@ == "Timer resumed"@
                    &&& o.persist
                    &&& o.fired == old(clock).pending_hook
                    &&& o.notice is None
                    &&& o.sound is None
                    &&& !o.shutdown
                })
            } else {
                &&& *final(clock) == spec_paused(*old(clock), now)
                &&& o.response.success
                &&& o.response.data is Null
                &&& o.response.message@ == "Timer paused"@
                &&& o.persist
                &&& o.fired is None
                &&& o.notice is None
                &&& o.sound is None
                &&& !o.shutdown
            },
            Command::Shutdown => {
                &&& *final(clock) == *old(clock)
                &&& o.response.success
                &&& o.response.data is Null
                &&& o.response.message@ == "Shutting down"@
                &&& !o.persist
                &&& o.fired is None
                &&& o.notice is None
                &&& o.sound is None
                &&& o.shutdown
            },
        },
{
    match cmd {
        Command::Start {
            work_seconds,
            break_seconds,
            long_break_seconds,
            sessions,
            auto_advance,
        } => {
            match validate_timer_params(
                *work_seconds,
                *break_seconds,
                *long_break_seconds,
                *sessions,
            ) {
                Err(msg) => reply_only(false, msg),
                Ok(()) => {
                    let w = *work_seconds as u64;
                    let b = *break_seconds as u64;
                    let l = *long_break_seconds as u64;
                    let sess = *sessions as u32;
                    *clock = TimerState {
                        phase: Phase::Work,
                        start_time: now,
                        duration_seconds: w,
                        work_seconds: w,
                        break_seconds: b,
                        long_break_seconds: l,
                        sessions_until_long_break: sess,
                        current_session_count: 0,
                        auto_advance: *auto_advance,
                        is_paused: false,
                        paused_elapsed_seconds: None,
                        pending_hook: None,
                    };
                    HandleOutcome {
                        response: Response {
                            success: true,
                            data: ResponseData::Null,
                            message: started_message(w, b, l, sess),
                        },
                        persist: true,
                        fired: Some(HookEvent::WorkStart),
                        notice: None,
                        sound: None,
                        shutdown: false,
                    }
                },
            }
        },
        Command::Stop => {
            clock.stop();
            HandleOutcome {
                response: Response {
                    success: true,
                    data: ResponseData::Null,
                    message: String::from_str("Timer stopped"),
                },
                persist: true,
                fired: None,
                notice: None,
                sound: None,
                shutdown: false,
            }
        },
        Command::Status { format } => {
            let st = clock.get_status_output(format, now);
            let data = match format {
                Format::Plain => ResponseData::Text(st.get_text().to_owned()),
                _ => ResponseData::Status(st),
            };
            HandleOutcome {
                response: Response {
                    success: true,
                    data,
                    message: String::from_str("Status retrieved"),
                },
                persist: false,
                fired: None,
                notice: None,
                sound: None,
                shutdown: false,
            }
        },
        Command::Skip => {
            let t = clock.next_phase_with_configs(sound_cfg, notif_cfg, now);
            HandleOutcome {
                response: Response {
                    success: true,
                    data: ResponseData::Null,
                    message: String::from_str("Skipped to next phase"),
                },
                persist: true,
                fired: t.fired,
                notice: t.notice,
                sound: t.sound,
                shutdown: false,
            }
        },
        Command::Pause => {
            if clock.is_paused {
                reply_only(true, String::from_str("Timer is already paused"))
            } else {
                clock.pause(now);
                HandleOutcome {
                    response: Response {
                        success: true,
                        data: ResponseData::Null,
                        message: String::from_str("Timer paused"),
                    },
                    persist: true,
                    fired: None,
                    notice: None,
                    sound: None,
                    shutdown: false,
                }
            }
        },
        Command::Resume => {
            if !clock.is_paused {
                reply_only(true, String::from_str("Timer is already running"))
            } else {
                let h = clock.resume(now);
                HandleOutcome {
                    response: Response {
                        success: true,
                        data: ResponseData::Null,
                        message: String::from_str("Timer resumed"),
                    },
                    persist: true,
                    fired: h,
                    notice: None,
                    sound: None,
                    shutdown: false,
                }
            }
        },
        Command::Toggle => {
            if clock.is_paused {
                if clock.start_time == 0 && matches!(clock.paused_elapsed_seconds, None) {
                    clock.work_seconds = defaults.work_seconds;
                    clock.break_seconds = defaults.break_seconds;
                    clock.long_break_seconds = defaults.long_break_seconds;
                    if clock.current_session_count >= defaults.sessions {
                        clock.current_session_count = 0;
                    }
                    clock.sessions_until_long_break = defaults.sessions;
                    clock.duration_seconds = match clock.phase {
                        Phase::Work => defaults.work_seconds,
                        Phase::Break => defaults.break_seconds,
                        Phase::LongBreak => defaults.long_break_seconds,
                    };
                }
                let h = clock.resume(now);
                HandleOutcome {
                    response: Response {
                        success: true,
                        data: ResponseData::Null,
                        message: String::from_str("Timer resumed"),
                    },
                    persist: true,
                    fired: h,
                    notice: None,
                    sound: None,
                    shutdown: false,
                }
            } else {
                clock.pause(now);
                HandleOutcome {
                    response: Response {
                        success: true,
                        data: ResponseData::Null,
                        message: String::from_str("Timer paused"),
                    },
                    persist: true,
                    fired: None,
                    notice: None,
                    sound: None,
                    shutdown: false,
                }
            }
        },
        Command::Shutdown => {
            let mut o = reply_only(true, String::from_str("Shutting down"));
            o.shutdown = true;
            o
        },
    }
}

/// How long the daemon loop may sleep at `now` before it must look at the
/// clock again: exactly until the running phase's finish timestamp (0 when it
/// is already due), or a fixed one-second fallback tick while paused, where
/// no deadline exists.
pub fn sleep_seconds(clock: &TimerState, now: u64) -> (r: u64)
    requires
        clock.wf(),
    ensures
        r == (if clock.is_paused {
            1int
        } else {
            clock.spec_remaining(now)
        }),
{
    if clock.is_paused {
        1
    } else {
        clock.remaining_seconds(now)
    }
}

/// Handles a fired deadline at `now`: when the clock is running and its time
/// is up, takes the same transition an explicit `skip` would and reports the
/// side effects owed; otherwise leaves the clock alone.
pub fn tick(
    clock: &mut TimerState,
    now: u64,
    sound_cfg: &SoundConfig,
    notif_cfg: &NotificationConfig,
) -> (r: Option<TickOutcome>)
    requires
        old(clock).wf(),
        now <= MAX_TIMESTAMP,
    ensures
        final(clock).wf(),
        if !old(clock).is_paused && old(clock).spec_remaining(now) == 0 {
            &&& *final(clock) == old(clock).spec_advanced(now)
            &&& r matches Some(t) && t.fired == (if old(clock).spec_advances() {
                Some(spec_start_hook(old(clock).spec_target()))
            } else {
                None::<HookEvent>
            }) && t.notice == (if notif_cfg.enabled {
                Some(old(clock).spec_notice())
            } else {
                None::<Notice>
            }) && t.sound == (if sound_cfg.enabled {
                Some(sound_cfg.spec_sound_plan(old(clock).spec_sound()))
            } else {
                None::<SoundPlan>
            })
        } else {
            *final(clock) == *old(clock) && r is None
        },
{
    if clock.is_finished(now) {
        Some(clock.next_phase_with_configs(sound_cfg, notif_cfg, now))
    } else {
        None
    }
}

} // verus!
