//! The status snapshot handed to the presentation layer: the display text
//! with icon and remaining time, the tooltip, the style class, and the
//! progress percentage, in the shape each supported output format expects.

use vstd::prelude::*;

use crate::clock::TimerState;
use crate::numtext::{dec_str, digit_char, digit_text, u64_to_string};
use crate::phase::Phase;

verus! {

/// The output format a status request asks for.
#[derive(Clone, Copy, Debug, PartialEq, Eq, Structural)]
pub enum Format {
    Waybar,
    Plain,
    I3statusRs,
}

impl Default for Format {
    /// The status bar format used when none is asked for.
    fn default() -> (f: Format)
        ensures
            f == Format::Waybar,
    {
        Format::Waybar
    }
}

/// One status snapshot, shaped for the asked-for format.
#[derive(Clone, Debug, PartialEq, Eq)]
pub enum StatusOutput {
    Waybar { text: String, tooltip: String, class: String, percentage: u64 },
    I3statusRs {
        text: String,
        short_text: Option<String>,
        icon: Option<String>,
        state: Option<String>,
    },
    Plain(String),
}

impl StatusOutput {
    /// The display text of the snapshot, whatever its shape.
    pub open spec fn spec_text(self) -> Seq<char> {
        match self {
            StatusOutput::Waybar { text, .. } => text@,
            StatusOutput::I3statusRs { text, .. } => text@,
            StatusOutput::Plain(text) => text@,
        }
    }

    /// Returns the display text of the snapshot.
    pub fn get_text(&self) -> (r: &str)
        ensures
            r@ == self.spec_text(),
    {
        match self {
            StatusOutput::Waybar { text, .. } => text.as_str(),
            StatusOutput::I3statusRs { text, .. } => text.as_str(),
            StatusOutput::Plain(text) => text.as_str(),
        }
    }
}

/// The icon shown for a phase.
pub open spec fn icon_word(p: Phase) -> Seq<char> {
    match p {
        Phase::Work => "\u{1f345}"@,
        Phase::Break => "\u{2615}"@,
        Phase::LongBreak => "\u{1f3d6}\u{fe0f}"@,
    }
}

/// The style class for a phase and pause flag.
pub open spec fn class_word(p: Phase, paused: bool) -> Seq<char> {
    match p {
        Phase::Work => if paused {
            "work-paused"@
        } else {
            "work"@
        },
        Phase::Break => if paused {
            "break-paused"@
        } else {
            "break"@
        },
        Phase::LongBreak => if paused {
            "long-break-paused"@
        } else {
            "long-break"@
        },
    }
}

/// The human name of a phase.
pub open spec fn phase_name_word(p: Phase) -> Seq<char> {
    match p {
        Phase::Work => "Work"@,
        Phase::Break => "Break"@,
        Phase::LongBreak => "Long Break"@,
    }
}

/// A number padded to at least two digits.
pub open spec fn spec_pad2(n: nat) -> Seq<char> {
    if n < 10 {
        seq!['0', digit_char(n as int)]
    } else {
        dec_str(n)
    }
}

/// Minutes and seconds, both two digits, separated by a colon.
pub open spec fn spec_mmss(rem: nat) -> Seq<char> {
    spec_pad2(rem / 60) + ":"@ + spec_pad2(rem % 60)
}

/// A duration in seconds written as minutes with one decimal, rounded to the
/// nearest tenth of a minute.
pub open spec fn spec_minutes_tenths(secs: nat) -> Seq<char> {
    let tenths = (secs * 10 + 30) / 60;
    dec_str(tenths / 10) + "."@ + dec_str(tenths % 10)
}

/// The display text: icon, remaining time, and a pause or play marker.
pub open spec fn spec_display_text(p: Phase, paused: bool, rem: nat) -> Seq<char> {
    icon_word(p) + " "@ + spec_mmss(rem) + (if paused {
        " \u{23f8}"@
    } else {
        " \u{25b6}"@
    })
}

/// The session part of the tooltip: shown only during work, counting the
/// session in progress out of the long-break target.
pub open spec fn spec_sessions_info(c: TimerState) -> Seq<char> {
    if c.phase is Work {
        " ("@ + dec_str((c.current_session_count + 1) as nat) + "/"@ + dec_str(
            c.sessions_until_long_break as nat,
        ) + ")"@
    } else {
        Seq::empty()
    }
}

/// The tooltip: phase name, session progress, configured length, and a
/// paused marker.
pub open spec fn spec_tooltip(c: TimerState) -> Seq<char> {
    phase_name_word(c.phase) + spec_sessions_info(c) + " - "@ + spec_minutes_tenths(
        c.duration_seconds as nat,
    ) + "min"@ + (if c.is_paused {
        " (Paused)"@
    } else {
        Seq::empty()
    })
}

/// The progress percentage: elapsed time over the whole duration, 0 while
/// paused.
pub open spec fn spec_percentage(c: TimerState, now: u64) -> int {
    if c.is_paused {
        0
    } else {
        (c.duration_seconds - c.spec_remaining(now)) * 100 / (c.duration_seconds as int)
    }
}

/// The state word a status bar colors by: `Info` while paused, `Critical`
/// during work, `Good` during a break.
pub open spec fn state_word(p: Phase, paused: bool) -> Seq<char> {
    if paused {
        "Info"@
    } else {
        match p {
            Phase::Work => "Critical"@,
            Phase::Break => "Good"@,
            Phase::LongBreak => "Good"@,
        }
    }
}

/// What a correct status snapshot for clock `c` at `now` in format `f` looks
/// like: the display text everywhere; for a status bar also the tooltip, the
/// style class, and the percentage or the state word.
pub open spec fn status_matches(r: StatusOutput, c: TimerState, f: Format, now: u64) -> bool {
    let text = spec_display_text(c.phase, c.is_paused, c.spec_remaining(now) as nat);
    match f {
        Format::Waybar => r matches StatusOutput::Waybar { text: t, tooltip, class, percentage }
            && t@ == text && tooltip@ == spec_tooltip(c) && class@ == class_word(
            c.phase,
            c.is_paused,
        ) && percentage == spec_percentage(c, now),
        Format::I3statusRs => r matches StatusOutput::I3statusRs {
            text: t,
            short_text,
            icon,
            state,
        } && t@ == text && (short_text matches Some(st) && st@ == text) && icon is None && (
        state matches Some(w) && w@ == state_word(c.phase, c.is_paused)),
        Format::Plain => r matches StatusOutput::Plain(t) && t@ == text,
    }
}

/// Returns the icon for a phase.
pub fn icon_text(p: Phase) -> (r: &'static str)
    ensures
        r@ == icon_word(p),
{
    match p {
        Phase::Work => "\u{1f345}",
        Phase::Break => "\u{2615}",
        Phase::LongBreak => "\u{1f3d6}\u{fe0f}",
    }
}

/// Returns the style class for a phase and pause flag.
pub fn class_text(p: Phase, paused: bool) -> (r: &'static str)
    ensures
        r@ == class_word(p, paused),
{
    match p {
        Phase::Work => if paused {
            "work-paused"
        } else {
            "work"
        },
        Phase::Break => if paused {
            "break-paused"
        } else {
            "break"
        },
        Phase::LongBreak => if paused {
            "long-break-paused"
        } else {
            "long-break"
        },
    }
}

/// Returns the human name of a phase.
pub fn phase_name_text(p: Phase) -> (r: &'static str)
    ensures
        r@ == phase_name_word(p),
{
    match p {
        Phase::Work => "Work",
        Phase::Break => "Break",
        Phase::LongBreak => "Long Break",
    }
}

/// Returns a number padded to at least two digits.
pub fn pad2_text(n: u64) -> (r: String)
    ensures
        r@ == spec_pad2(n as nat),
{
    if n < 10 {
        let mut s = String::from_str("0");
        s.append(digit_text(n));
        proof {
            reveal_strlit("0");
            assert(s@ =~= spec_pad2(n as nat));
        }
        s
    } else {
        u64_to_string(n)
    }
}

/// Returns minutes and seconds as `mm:ss`.
pub fn mmss_text(rem: u64) -> (r: String)
    ensures
        r@ == spec_mmss(rem as nat),
{
    let mut s = pad2_text(rem / 60);
    s.append(":");
    s.append(pad2_text(rem % 60).as_str());
    proof {
        assert(s@ =~= spec_mmss(rem as nat));
    }
    s
}

/// Returns a duration in seconds as minutes with one decimal.
pub fn minutes_tenths_text(secs: u64) -> (r: String)
    requires
        secs <= 1000000,
    ensures
        r@ == spec_minutes_tenths(secs as nat),
{
    let tenths = (secs * 10 + 30) / 60;
    let mut s = u64_to_string(tenths / 10);
    s.append(".");
    s.append(u64_to_string(tenths % 10).as_str());
    proof {
        assert(s@ =~= spec_minutes_tenths(secs as nat));
    }
    s
}

/// Returns the display text for a phase, pause flag, and remaining seconds.
pub fn display_text(p: Phase, paused: bool, rem: u64) -> (r: String)
    ensures
        r@ == spec_display_text(p, paused, rem as nat),
{
    let mut s = String::from_str(icon_text(p));
    s.append(" ");
    s.append(mmss_text(rem).as_str());
    if paused {
        s.append(" \u{23f8}");
    } else {
        s.append(" \u{25b6}");
    }
    proof {
        assert(s@ =~= spec_display_text(p, paused, rem as nat));
    }
    s
}

impl TimerState {
    /// Returns the tooltip for this clock.
    pub fn tooltip_text(&self) -> (r: String)
        requires
            self.wf(),
        ensures
            r@ == spec_tooltip(*self),
    {
        let mut s = String::from_str(phase_name_text(self.phase));
        if matches!(self.phase, Phase::Work) {
            s.append(" (");
            s.append(u64_to_string((self.current_session_count + 1) as u64).as_str());
            s.append("/");
            s.append(u64_to_string(self.sessions_until_long_break as u64).as_str());
            s.append(")");
        }
        s.append(" - ");
        s.append(minutes_tenths_text(self.duration_seconds).as_str());
        s.append("min");
        if self.is_paused {
            s.append(" (Paused)");
        }
        proof {
            assert(s@ =~= spec_tooltip(*self));
        }
        s
    }

    /// Returns the progress percentage at `now`.
    pub fn percentage(&self, now: u64) -> (r: u64)
        requires
            self.wf(),
        ensures
            r == spec_percentage(*self, now),
            r <= 100,
    {
        if self.is_paused {
            0
        } else {
            let rem = self.remaining_seconds(now);
            proof {
                assert(rem <= self.duration_seconds);
                let d = self.duration_seconds as int;
                let x = d - rem;
                assert(x * 100 / d <= 100) by (nonlinear_arith)
                    requires
                        1 <= d,
                        0 <= x <= d,
                ;
            }
            (self.duration_seconds - rem) * 100 / self.duration_seconds
        }
    }

    /// Builds the status snapshot for this clock at `now`, in the asked-for
    /// format. The text shows the remaining time with a pause or play
    /// marker; the tooltip names the phase, the session progress during
    /// work, the configured length, and whether the clock is paused.
    pub fn get_status_output(&self, format: &Format, now: u64) -> (r: StatusOutput)
        requires
            self.wf(),
        ensures
            status_matches(r, *self, *format, now),
    {
        let rem = self.remaining_seconds(now);
        let text = display_text(self.phase, self.is_paused, rem);
        match format {
            Format::Waybar => StatusOutput::Waybar {
                text,
                tooltip: self.tooltip_text(),
                class: String::from_str(class_text(self.phase, self.is_paused)),
                percentage: self.percentage(now),
            },
            Format::I3statusRs => {
                let short = text.clone();
                let state = if self.is_paused {
                    String::from_str("Info")
                } else {
                    match self.phase {
                        Phase::Work => String::from_str("Critical"),
                        Phase::Break => String::from_str("Good"),
                        Phase::LongBreak => String::from_str("Good"),
                    }
                };
                StatusOutput::I3statusRs {
                    text,
                    short_text: Some(short),
                    icon: None,
                    state: Some(state),
                }
            },
            Format::Plain => StatusOutput::Plain(text),
        }
    }
}

/// Characters equal up to ASCII case.
pub open spec fn fold_eq(x: char, y: char) -> bool {
    ||| x == y
    ||| (65 <= x as u32 <= 90 && x as u32 + 32 == y as u32)
    ||| (65 <= y as u32 <= 90 && y as u32 + 32 == x as u32)
}

/// Strings equal up to ASCII case.
pub open spec fn eq_fold(a: Seq<char>, b: Seq<char>) -> bool {
    a.len() == b.len() && forall|i: int| 0 <= i < a.len() ==> fold_eq(#[trigger] a[i], b[i])
}

/// Compares two strings ignoring ASCII case.
pub fn str_eq_fold(a: &str, b: &str) -> (r: bool)
    ensures
        r == eq_fold(a@, b@),
{
    let na = a.unicode_len();
    let nb = b.unicode_len();
    if na != nb {
        return false;
    }
    let mut i: usize = 0;
    while i < na
        invariant
            0 <= i <= na,
            na == a@.len(),
            na == b@.len(),
            forall|j: int| 0 <= j < i ==> fold_eq(#[trigger] a@[j], b@[j]),
        decreases na - i,
    {
        let ca = a.get_char(i);
        let cb = b.get_char(i);
        let ua = ca as u32;
        let ub = cb as u32;
        let same = ca == cb || (65 <= ua && ua <= 90 && ua + 32 == ub) || (65 <= ub && ub <= 90
            && ub + 32 == ua);
        if !same {
            return false;
        }
        i += 1;
    }
    true
}

impl Format {
    /// Reads a format name, ignoring ASCII case: `waybar`, `plain`, or
    /// `i3status-rs`. Anything else is an error naming the unknown format.
    pub fn from_str(s: &str) -> (r: Result<Format, String>)
        ensures
            eq_fold(s@, "waybar"@) ==> r == Ok::<Format, String>(Format::Waybar),
            !eq_fold(s@, "waybar"@) && eq_fold(s@, "plain"@) ==> r == Ok::<Format, String>(
                Format::Plain,
            ),
            !eq_fold(s@, "waybar"@) && !eq_fold(s@, "plain"@) && eq_fold(s@, "i3status-rs"@)
                ==> r == Ok::<Format, String>(Format::I3statusRs),
            !eq_fold(s@, "waybar"@) && !eq_fold(s@, "plain"@) && !eq_fold(s@, "i3status-rs"@)
                ==> (r matches Err(m) && m@ == "Unknown format: '"@ + s@
                + "'. Supported formats: waybar, plain, i3status-rs"@),
    {
        if str_eq_fold(s, "waybar") {
            Ok(Format::Waybar)
        } else if str_eq_fold(s, "plain") {
            Ok(Format::Plain)
        } else if str_eq_fold(s, "i3status-rs") {
            Ok(Format::I3statusRs)
        } else {
            let mut m = String::from_str("Unknown format: '");
            m.append(s);
            m.append("'. Supported formats: waybar, plain, i3status-rs");
            Err(m)
        }
    }
}

} // verus!
