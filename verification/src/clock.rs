//! The phase clock: current phase, durations, pause bookkeeping, cycle
//! counter, and the transition algorithm. Pure state and arithmetic — every
//! operation takes the current time as an argument, so nothing here reads a
//! clock or performs I/O.

use vstd::prelude::*;

use crate::MAX_TIMESTAMP;
use crate::phase::{
    AutoAdvance, HookEvent, Notice, Phase, SoundType, spec_should_advance, should_advance,
    spec_start_hook, start_hook,
};

verus! {

/// Largest accepted phase duration, in seconds (600 minutes).
pub const MAX_DURATION_SECONDS: u64 = 36000;

/// Largest accepted number of sessions until a long break.
pub const MAX_SESSIONS: u32 = 100;

/// What a completed transition hands to the outside collaborators: the
/// notification message, the transition sound, and the start hook if it fired
/// immediately (`None` when it was deferred as the pending hook instead).
#[derive(Clone, Copy, Debug, PartialEq, Eq, Structural)]
pub struct Transition {
    pub notice: Notice,
    pub sound: SoundType,
    pub fired: Option<HookEvent>,
}

/// The clock. `start_time` marks when the running interval began and is
/// meaningless while paused; `paused_elapsed_seconds` is set only while
/// paused and only if the phase had run before the pause (`None` means the
/// full duration remains).
#[derive(Clone, Copy, Debug, PartialEq, Eq)]
pub struct TimerState {
    pub phase: Phase,
    pub start_time: u64,
    pub duration_seconds: u64,
    pub work_seconds: u64,
    pub break_seconds: u64,
    pub long_break_seconds: u64,
    pub sessions_until_long_break: u32,
    pub current_session_count: u32,
    pub auto_advance: AutoAdvance,
    pub is_paused: bool,
    pub paused_elapsed_seconds: Option<u64>,
    pub pending_hook: Option<HookEvent>,
}

impl TimerState {
    /// Well-formedness: durations and the session target are within the
    /// validated ranges, the counter is strictly below the target, timestamps
    /// leave headroom for finish-time arithmetic, and a running clock stores
    /// no paused progress.
    pub open spec fn wf(self) -> bool {
        &&& 1 <= self.duration_seconds <= MAX_DURATION_SECONDS
        &&& 1 <= self.work_seconds <= MAX_DURATION_SECONDS
        &&& 1 <= self.break_seconds <= MAX_DURATION_SECONDS
        &&& 1 <= self.long_break_seconds <= MAX_DURATION_SECONDS
        &&& 1 <= self.sessions_until_long_break <= MAX_SESSIONS
        &&& self.current_session_count < self.sessions_until_long_break
        &&& self.start_time <= MAX_TIMESTAMP
        &&& (!self.is_paused ==> self.paused_elapsed_seconds is None)
        &&& (self.paused_elapsed_seconds matches Some(e) ==> e <= MAX_TIMESTAMP)
    }

    /// Seconds the running interval has been going at `now` (0 under clock
    /// skew, when `now` is before the recorded start).
    pub open spec fn spec_elapsed(self, now: u64) -> int {
        if now >= self.start_time {
            now - self.start_time
        } else {
            0
        }
    }

    /// Seconds left at `now`: while paused, the duration less any stored
    /// progress; while running, the duration less the elapsed time; both
    /// floored at 0.
    pub open spec fn spec_remaining(self, now: u64) -> int {
        let used: int = if self.is_paused {
            match self.paused_elapsed_seconds {
                Some(e) => e as int,
                None => 0,
            }
        } else {
            self.spec_elapsed(now)
        };
        if self.duration_seconds >= used {
            self.duration_seconds - used
        } else {
            0
        }
    }

    /// The configured length of the given phase.
    pub open spec fn spec_length_of(self, p: Phase) -> u64 {
        match p {
            Phase::Work => self.work_seconds,
            Phase::Break => self.break_seconds,
            Phase::LongBreak => self.long_break_seconds,
        }
    }

    /// A fresh clock: in `Work` at full duration, paused, never started,
    /// counter at zero, no pending hook, manual advance.
    pub fn new(work: u64, break_time: u64, long_break: u64, sessions: u32) -> (c: TimerState)
        requires
            1 <= work <= MAX_DURATION_SECONDS,
            1 <= break_time <= MAX_DURATION_SECONDS,
            1 <= long_break <= MAX_DURATION_SECONDS,
            1 <= sessions <= MAX_SESSIONS,
        ensures
            c == (TimerState {
                phase: Phase::Work,
                start_time: 0,
                duration_seconds: work,
                work_seconds: work,
                break_seconds: break_time,
                long_break_seconds: long_break,
                sessions_until_long_break: sessions,
                current_session_count: 0,
                auto_advance: AutoAdvance::Never,
                is_paused: true,
                paused_elapsed_seconds: None::<u64>,
                pending_hook: None::<HookEvent>,
            }),
            c.wf(),
    {
        TimerState {
            phase: Phase::Work,
            start_time: 0,
            duration_seconds: work,
            work_seconds: work,
            break_seconds: break_time,
            long_break_seconds: long_break,
            sessions_until_long_break: sessions,
            current_session_count: 0,
            auto_advance: AutoAdvance::Never,
            is_paused: true,
            paused_elapsed_seconds: None,
            pending_hook: None,
        }
    }

    /// Begins a fresh running work phase at `now`.
    pub fn start_work(&mut self, now: u64)
        requires
            old(self).wf(),
            now <= MAX_TIMESTAMP,
        ensures
            *final(self) == (TimerState {
                phase: Phase::Work,
                start_time: now,
                duration_seconds: old(self).work_seconds,
                is_paused: false,
                paused_elapsed_seconds: None::<u64>,
                ..*old(self)
            }),
            final(self).wf(),
    {
        self.phase = Phase::Work;
        self.duration_seconds = self.work_seconds;
        self.start_time = now;
        self.is_paused = false;
        self.paused_elapsed_seconds = None;
    }

    /// Seconds left at `now`.
    pub fn remaining_seconds(&self, now: u64) -> (r: u64)
        ensures
            r == self.spec_remaining(now),
    {
        let used: u64 = if self.is_paused {
            match self.paused_elapsed_seconds {
                Some(e) => e,
                None => 0,
            }
        } else {
            if now >= self.start_time {
                now - self.start_time
            } else {
                0
            }
        };
        if self.duration_seconds >= used {
            self.duration_seconds - used
        } else {
            0
        }
    }

    /// True when the clock is running and its time is up at `now`.
    pub fn is_finished(&self, now: u64) -> (r: bool)
        ensures
            r == (!self.is_paused && self.spec_remaining(now) == 0),
    {
        !self.is_paused && self.remaining_seconds(now) == 0
    }

    /// The absolute timestamp at which the running phase reaches zero
    /// remaining time, or `None` while paused. This is the exact instant the
    /// daemon sleeps toward.
    pub fn get_finish_time(&self) -> (r: Option<u64>)
        requires
            self.wf(),
        ensures
            r == (if self.is_paused {
                None::<u64>
            } else {
                Some((self.start_time + self.duration_seconds) as u64)
            }),
    {
        if self.is_paused {
            None
        } else {
            Some(self.start_time + self.duration_seconds)
        }
    }

    /// Pauses a running clock at `now`, recording how long it had run so the
    /// progress survives a later resume. A no-op when already paused.
    pub fn pause(&mut self, now: u64)
        requires
            old(self).wf(),
            now <= MAX_TIMESTAMP,
        ensures
            *final(self) == (if old(self).is_paused {
                *old(self)
            } else {
                TimerState {
                    is_paused: true,
                    paused_elapsed_seconds: Some(old(self).spec_elapsed(now) as u64),
                    ..*old(self)
                }
            }),
            final(self).wf(),
    {
        if !self.is_paused {
            let elapsed: u64 = if now >= self.start_time {
                now - self.start_time
            } else {
                0
            };
            self.paused_elapsed_seconds = Some(elapsed);
            self.is_paused = true;
        }
    }

    /// Resumes a paused clock at `now`, restoring the recorded progress by
    /// back-dating `start_time`, and returns the pending hook, if any, which
    /// is cleared and must now fire. A no-op returning `None` when already
    /// running.
    pub fn resume(&mut self, now: u64) -> (h: Option<HookEvent>)
        requires
            old(self).wf(),
            now <= MAX_TIMESTAMP,
        ensures
            *final(self) == (if old(self).is_paused {
                TimerState {
                    start_time: old(self).spec_resume_start(now),
                    is_paused: false,
                    paused_elapsed_seconds: None::<u64>,
                    pending_hook: None::<HookEvent>,
                    ..*old(self)
                }
            } else {
                *old(self)
            }),
            h == (if old(self).is_paused {
                old(self).pending_hook
            } else {
                None::<HookEvent>
            }),
            final(self).wf(),
    {
        if self.is_paused {
            match self.paused_elapsed_seconds {
                Some(elapsed) => {
                    self.start_time = if now >= elapsed {
                        now - elapsed
                    } else {
                        0
                    };
                    self.paused_elapsed_seconds = None;
                }
                None => {
                    self.start_time = now;
                }
            }
            self.is_paused = false;
            let h = self.pending_hook;
            self.pending_hook = None;
            h
        } else {
            None
        }
    }

    /// The start time a resume at `now` restores: back-dated by the recorded
    /// progress (floored at 0 under clock skew), or `now` itself for a phase
    /// that never ran.
    pub open spec fn spec_resume_start(self, now: u64) -> u64 {
        match self.paused_elapsed_seconds {
            Some(e) => if now >= e {
                (now - e) as u64
            } else {
                0
            },
            None => now,
        }
    }

    /// Resets to a paused `Work` phase at full duration with the counter at
    /// zero, clearing any progress and any pending hook.
    pub fn stop(&mut self)
        requires
            old(self).wf(),
        ensures
            *final(self) == (TimerState {
                phase: Phase::Work,
                start_time: 0,
                duration_seconds: old(self).work_seconds,
                current_session_count: 0,
                is_paused: true,
                paused_elapsed_seconds: None::<u64>,
                pending_hook: None::<HookEvent>,
                ..*old(self)
            }),
            final(self).wf(),
    {
        self.phase = Phase::Work;
        self.start_time = 0;
        self.duration_seconds = self.work_seconds;
        self.current_session_count = 0;
        self.is_paused = true;
        self.paused_elapsed_seconds = None;
        self.pending_hook = None;
    }

    /// The phase a transition out of the current state lands in: completing
    /// `Work` targets `LongBreak` exactly when the incremented counter
    /// reaches the session target, otherwise `Break`; completing either
    /// break targets `Work`.
    pub open spec fn spec_target(self) -> Phase {
        match self.phase {
            Phase::Work => if self.current_session_count + 1
                >= self.sessions_until_long_break {
                Phase::LongBreak
            } else {
                Phase::Break
            },
            Phase::Break => Phase::Work,
            Phase::LongBreak => Phase::Work,
        }
    }

    /// The counter after a transition: reset to 0 on `Work` -> `LongBreak`,
    /// incremented by exactly 1 on `Work` -> `Break`, unchanged otherwise.
    pub open spec fn spec_next_count(self) -> u32 {
        match self.phase {
            Phase::Work => if self.current_session_count + 1
                >= self.sessions_until_long_break {
                0u32
            } else {
                (self.current_session_count + 1) as u32
            },
            Phase::Break => self.current_session_count,
            Phase::LongBreak => self.current_session_count,
        }
    }

    /// The sound keyed by the (from, to) pair of the transition.
    pub open spec fn spec_sound(self) -> SoundType {
        match self.phase {
            Phase::Work => if self.spec_target() is LongBreak {
                SoundType::WorkToLongBreak
            } else {
                SoundType::WorkToBreak
            },
            Phase::Break => SoundType::BreakToWork,
            Phase::LongBreak => SoundType::BreakToWork,
        }
    }

    /// The notification message keyed by the target phase and, for a return
    /// to work, by the break it came from.
    pub open spec fn spec_notice(self) -> Notice {
        match self.phase {
            Phase::Work => if self.spec_target() is LongBreak {
                Notice::LongBreakStart
            } else {
                Notice::BreakStart
            },
            Phase::Break => Notice::WorkStartFromBreak,
            Phase::LongBreak => Notice::WorkStartFromLongBreak,
        }
    }

    /// Whether the policy lets the target phase start running.
    pub open spec fn spec_advances(self) -> bool {
        spec_should_advance(self.auto_advance, self.phase is Work)
    }

    /// The clock after a transition at `now`. The target phase is entered at
    /// its configured length; if the policy says it runs, the interval starts
    /// at `now`; otherwise it is left paused with full duration remaining and
    /// the target's start hook stored as the pending hook. Either way the
    /// transition owns the single pending slot: a hook still deferred from an
    /// earlier transition is dropped, last one wins.
    pub open spec fn spec_advanced(self, now: u64) -> TimerState {
        let target = self.spec_target();
        if self.spec_advances() {
            TimerState {
                phase: target,
                duration_seconds: self.spec_length_of(target),
                current_session_count: self.spec_next_count(),
                start_time: now,
                is_paused: false,
                paused_elapsed_seconds: None,
                pending_hook: None,
                ..self
            }
        } else {
            TimerState {
                phase: target,
                duration_seconds: self.spec_length_of(target),
                current_session_count: self.spec_next_count(),
                is_paused: true,
                paused_elapsed_seconds: None,
                pending_hook: Some(spec_start_hook(target)),
                ..self
            }
        }
    }

    /// The transition algorithm, invoked both by an explicit skip and by
    /// deadline expiry. Mutates the clock as `spec_advanced` describes and
    /// returns the notice, the sound, and the start hook — fired immediately
    /// exactly when the policy let the target phase start running, deferred
    /// as the pending hook otherwise.
    pub fn next_phase(&mut self, now: u64) -> (t: Transition)
        requires
            old(self).wf(),
            now <= MAX_TIMESTAMP,
        ensures
            *final(self) == old(self).spec_advanced(now),
            final(self).wf(),
            t.notice == old(self).spec_notice(),
            t.sound == old(self).spec_sound(),
            t.fired == (if old(self).spec_advances() {
                Some(spec_start_hook(old(self).spec_target()))
            } else {
                None::<HookEvent>
            }),
    {
        let from_work = match self.phase {
            Phase::Work => true,
            Phase::Break => false,
            Phase::LongBreak => false,
        };
        let target: Phase = match self.phase {
            Phase::Work => {
                if self.current_session_count + 1 >= self.sessions_until_long_break {
                    Phase::LongBreak
                } else {
                    Phase::Break
                }
            }
            Phase::Break => Phase::Work,
            Phase::LongBreak => Phase::Work,
        };
        let notice = match target {
            Phase::LongBreak => Notice::LongBreakStart,
            Phase::Break => Notice::BreakStart,
            Phase::Work => match self.phase {
                Phase::LongBreak => Notice::WorkStartFromLongBreak,
                _ => Notice::WorkStartFromBreak,
            },
        };
        let sound = match target {
            Phase::LongBreak => SoundType::WorkToLongBreak,
            Phase::Break => SoundType::WorkToBreak,
            Phase::Work => SoundType::BreakToWork,
        };
        self.current_session_count = match self.phase {
            Phase::Work => {
                if self.current_session_count + 1 >= self.sessions_until_long_break {
                    0
                } else {
                    self.current_session_count + 1
                }
            }
            _ => self.current_session_count,
        };
        self.phase = target;
        self.duration_seconds = match target {
            Phase::Work => self.work_seconds,
            Phase::Break => self.break_seconds,
            Phase::LongBreak => self.long_break_seconds,
        };
        self.paused_elapsed_seconds = None;
        let hook = start_hook(target);
        let fired: Option<HookEvent>;
        if should_advance(self.auto_advance, from_work) {
            self.start_time = now;
            self.is_paused = false;
            self.pending_hook = None;
            fired = Some(hook);
        } else {
            self.is_paused = true;
            self.pending_hook = Some(hook);
            fired = None;
        }
        Transition { notice, sound, fired }
    }
}

/// Pausing a running clock at `t1` and resuming at any later `t2` leaves the
/// remaining time exactly what it was at the moment of the pause, however
/// much real time passed in between. `paused` and `resumed` are the states
/// `pause(t1)` and then `resume(t2)` produce, as their contracts state them.
pub proof fn lemma_pause_resume_preserves_remaining(c: TimerState, t1: u64, t2: u64)
    requires
        c.wf(),
        !c.is_paused,
        t1 <= t2 <= MAX_TIMESTAMP,
    ensures
        ({
            let paused = TimerState {
                is_paused: true,
                paused_elapsed_seconds: Some(c.spec_elapsed(t1) as u64),
                ..c
            };
            let resumed = TimerState {
                start_time: paused.spec_resume_start(t2),
                is_paused: false,
                paused_elapsed_seconds: None,
                pending_hook: None,
                ..paused
            };
            resumed.spec_remaining(t2) == c.spec_remaining(t1)
        }),
{
}

/// Session cycling, one step at a time: from a well-formed clock in `Work`,
/// exactly the transition that brings the counter up to the session target
/// lands in `LongBreak` and resets the counter to 0; every earlier one lands
/// in `Break` and increments the counter by exactly 1; completing either
/// break leads back to `Work` and leaves the counter alone.
pub proof fn lemma_session_cycling(c: TimerState, now: u64)
    requires
        c.wf(),
    ensures
        c.phase is Work && c.current_session_count + 1 == c.sessions_until_long_break ==> {
            &&& c.spec_advanced(now).phase is LongBreak
            &&& c.spec_advanced(now).current_session_count == 0
        },
        c.phase is Work && c.current_session_count + 1 < c.sessions_until_long_break ==> {
            &&& c.spec_advanced(now).phase is Break
            &&& c.spec_advanced(now).current_session_count == c.current_session_count + 1
        },
        !(c.phase is Work) ==> {
            &&& c.spec_advanced(now).phase is Work
            &&& c.spec_advanced(now).current_session_count == c.current_session_count
        },
{
}

impl TimerState {
    /// One full cycle: the current work phase completes, then the break it
    /// led to completes in turn.
    pub open spec fn spec_cycle(self, now: u64) -> TimerState {
        self.spec_advanced(now).spec_advanced(now)
    }

    /// The clock after `k` full cycles.
    pub open spec fn spec_cycles(self, now: u64, k: nat) -> TimerState
        decreases k,
    {
        if k == 0 {
            self
        } else {
            self.spec_cycles(now, (k - 1) as nat).spec_cycle(now)
        }
    }
}

/// Running `k` full cycles from a work phase whose counter has `k` or more
/// sessions still to go leaves the clock back in `Work`, with the counter
/// advanced by exactly `k` and the configuration untouched.
pub proof fn lemma_cycles_count(c: TimerState, now: u64, k: nat)
    requires
        c.wf(),
        c.phase is Work,
        c.current_session_count + k < c.sessions_until_long_break,
        now <= MAX_TIMESTAMP,
    ensures
        c.spec_cycles(now, k).wf(),
        c.spec_cycles(now, k).phase is Work,
        c.spec_cycles(now, k).current_session_count == c.current_session_count + k,
        c.spec_cycles(now, k).sessions_until_long_break == c.sessions_until_long_break,
    decreases k,
{
    if k > 0 {
        lemma_cycles_count(c, now, (k - 1) as nat);
    }
}

/// Session cycling over a whole run: starting from a counter at 0 with a
/// session target of `n`, every one of the first `n - 1` work completions
/// lands in `Break`, and exactly the `n`-th lands in `LongBreak` and resets
/// the counter to 0. The `k`-th work completion is the transition out of the
/// clock `k - 1` full cycles produce.
pub proof fn lemma_nth_work_completion(c: TimerState, now: u64, k: nat)
    requires
        c.wf(),
        c.phase is Work,
        c.current_session_count == 0,
        1 <= k <= c.sessions_until_long_break,
        now <= MAX_TIMESTAMP,
    ensures
        ({
            let before = c.spec_cycles(now, (k - 1) as nat);
            &&& before.phase is Work
            &&& (k < c.sessions_until_long_break ==> before.spec_advanced(now).phase is Break)
            &&& (k == c.sessions_until_long_break ==> {
                &&& before.spec_advanced(now).phase is LongBreak
                &&& before.spec_advanced(now).current_session_count == 0
            })
        }),
{
    lemma_cycles_count(c, now, (k - 1) as nat);
}

/// Pending-hook deferral: with `auto_advance = Never`, completing `Work`
/// fires no hook immediately (`next_phase` returns `fired == None`, since the
/// policy refuses the advance); the target's start hook is stored as the
/// pending hook of a paused clock instead. By the contract of `resume`, that
/// stored hook is returned — and cleared — by exactly the next resume, so it
/// fires exactly once.
pub proof fn lemma_pending_hook_deferred(c: TimerState, now: u64)
    requires
        c.wf(),
        c.phase is Work,
        c.auto_advance is Never,
    ensures
        !c.spec_advances(),
        c.spec_advanced(now).is_paused,
        c.spec_advanced(now).pending_hook == Some(spec_start_hook(c.spec_target())),
{
}

} // verus!
