//! The phases of the cycle, the auto-advance policy, and the identifiers of
//! the sounds and lifecycle hooks tied to phase transitions.

use vstd::prelude::*;

verus! {

/// A phase of the cycle. The clock is always "in" a phase; whether it is
/// counting down is a separate paused flag.
#[derive(Clone, Copy, Debug, PartialEq, Eq, Structural)]
pub enum Phase {
    Work,
    Break,
    LongBreak,
}

/// Policy governing whether a freshly entered phase starts running or paused.
/// `Never` leaves every new phase paused; `All` starts every new phase
/// running; `ToBreak` starts only phases entered from `Work`; `ToWork` starts
/// only phases entered from a break.
#[derive(Clone, Copy, Debug, PartialEq, Eq, Structural)]
pub enum AutoAdvance {
    Never,
    All,
    ToBreak,
    ToWork,
}

/// Identifier of the transition sound, keyed by the (from, to) pair.
/// A transition out of either kind of break plays `BreakToWork`.
#[derive(Clone, Copy, Debug, PartialEq, Eq, Structural)]
pub enum SoundType {
    WorkToBreak,
    BreakToWork,
    WorkToLongBreak,
}

/// A lifecycle event fired when a phase starts. When a transition lands in a
/// paused phase the event is deferred (stored as the pending hook) and fires
/// on the next resume.
#[derive(Clone, Copy, Debug, PartialEq, Eq, Structural)]
pub enum HookEvent {
    WorkStart,
    BreakStart,
    LongBreakStart,
}

/// The notification message selected by a transition, keyed by the target
/// phase and, for a return to work, by the phase it came from.
#[derive(Clone, Copy, Debug, PartialEq, Eq, Structural)]
pub enum Notice {
    BreakStart,
    LongBreakStart,
    WorkStartFromBreak,
    WorkStartFromLongBreak,
}

/// The whole decision table of the advance policy.
pub open spec fn spec_should_advance(mode: AutoAdvance, from_work: bool) -> bool {
    match mode {
        AutoAdvance::Never => false,
        AutoAdvance::All => true,
        AutoAdvance::ToBreak => from_work,
        AutoAdvance::ToWork => !from_work,
    }
}

/// Decides whether the phase entered by a transition starts running (`true`)
/// or paused (`false`), given which phase the transition came from.
pub fn should_advance(mode: AutoAdvance, from_work: bool) -> (r: bool)
    ensures
        r == spec_should_advance(mode, from_work),
{
    match mode {
        AutoAdvance::Never => false,
        AutoAdvance::All => true,
        AutoAdvance::ToBreak => from_work,
        AutoAdvance::ToWork => !from_work,
    }
}

/// The lifecycle event announcing the start of the given phase.
pub open spec fn spec_start_hook(p: Phase) -> HookEvent {
    match p {
        Phase::Work => HookEvent::WorkStart,
        Phase::Break => HookEvent::BreakStart,
        Phase::LongBreak => HookEvent::LongBreakStart,
    }
}

/// Returns the lifecycle event announcing the start of the given phase.
pub fn start_hook(p: Phase) -> (h: HookEvent)
    ensures
        h == spec_start_hook(p),
{
    match p {
        Phase::Work => HookEvent::WorkStart,
        Phase::Break => HookEvent::BreakStart,
        Phase::LongBreak => HookEvent::LongBreakStart,
    }
}

impl HookEvent {
    /// The event's name, as hook configuration keys and environment
    /// variables spell it.
    pub open spec fn spec_name(self) -> Seq<char> {
        match self {
            HookEvent::WorkStart => "work_start"@,
            HookEvent::BreakStart => "break_start"@,
            HookEvent::LongBreakStart => "long_break_start"@,
        }
    }

    /// Returns the event's name.
    pub fn name(&self) -> (s: String)
        ensures
            s@ == self.spec_name(),
    {
        match self {
            HookEvent::WorkStart => String::from_str("work_start"),
            HookEvent::BreakStart => String::from_str("break_start"),
            HookEvent::LongBreakStart => String::from_str("long_break_start"),
        }
    }
}

impl Notice {
    /// The exact message text shown to the user for this notice.
    pub open spec fn spec_text(self) -> Seq<char> {
        match self {
            Notice::BreakStart => "Break time! Take a short rest \u{2615}"@,
            Notice::LongBreakStart => "Long break time! Take a well-deserved rest \u{1f3d6}\u{fe0f}"@,
            Notice::WorkStartFromBreak => "Back to work! Let's focus \u{1f345}"@,
            Notice::WorkStartFromLongBreak => "Ready for another session! \u{1f680}"@,
        }
    }

    /// Returns the message text shown to the user for this notice.
    pub fn text(&self) -> (s: String)
        ensures
            s@ == self.spec_text(),
    {
        match self {
            Notice::BreakStart => String::from_str("Break time! Take a short rest \u{2615}"),
            Notice::LongBreakStart => String::from_str(
                "Long break time! Take a well-deserved rest \u{1f3d6}\u{fe0f}",
            ),
            Notice::WorkStartFromBreak => String::from_str("Back to work! Let's focus \u{1f345}"),
            Notice::WorkStartFromLongBreak => String::from_str(
                "Ready for another session! \u{1f680}",
            ),
        }
    }
}

} // verus!
