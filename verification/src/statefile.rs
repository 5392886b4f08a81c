//! The session store's document format: one JSON object mirroring the phase
//! clock's fields, written after every mutation and read back at startup.
//! `render_state` produces the canonical document; `parse_state` reads one
//! and rejects anything malformed or out of range, so a corrupt file simply
//! yields `None`. Reading back a rendered document returns exactly the clock
//! it came from — the round trip is part of `parse_state`'s contract.

use vstd::prelude::*;

use crate::MAX_TIMESTAMP;
use crate::clock::{MAX_DURATION_SECONDS, MAX_SESSIONS, TimerState};
use crate::numtext::{
    cat_from, dec_str, eat_lit, eat_u64, is_digit, lemma_cat_from_len, lemma_cat_matches,
    lemma_dec_str_props, lemma_eat_u64_exact, matches_at, pos_of, spec_eat_lit, spec_eat_u64,
    u64_to_string,
};
use crate::phase::{AutoAdvance, HookEvent, Phase};

verus! {

/// The serialized word for a phase.
pub open spec fn phase_word(p: Phase) -> Seq<char> {
    match p {
        Phase::Work => "work"@,
        Phase::Break => "break"@,
        Phase::LongBreak => "long_break"@,
    }
}

/// The serialized word for an auto-advance mode.
pub open spec fn mode_word(m: AutoAdvance) -> Seq<char> {
    match m {
        AutoAdvance::Never => "none"@,
        AutoAdvance::All => "all"@,
        AutoAdvance::ToBreak => "to_break"@,
        AutoAdvance::ToWork => "to_work"@,
    }
}

/// The serialized word for a boolean.
pub open spec fn bool_word(b: bool) -> Seq<char> {
    if b {
        "true"@
    } else {
        "false"@
    }
}

/// The serialized text for an optional count of seconds.
pub open spec fn opt_u64_text(o: Option<u64>) -> Seq<char> {
    match o {
        None => "null"@,
        Some(v) => dec_str(v as nat),
    }
}

/// The serialized text for an optional pending hook.
pub open spec fn opt_hook_text(o: Option<HookEvent>) -> Seq<char> {
    match o {
        None => "null"@,
        Some(HookEvent::WorkStart) => "\"work_start\""@,
        Some(HookEvent::BreakStart) => "\"break_start\""@,
        Some(HookEvent::LongBreakStart) => "\"long_break_start\""@,
    }
}

/// The `k`-th piece of the state document: field labels alternating with the
/// field values of `c`.
pub open spec fn state_seg(c: TimerState, k: int) -> Seq<char> {
    if k == 0 {
        "{\"phase\":\""@
    } else if k == 1 {
        phase_word(c.phase)
    } else if k == 2 {
        "\",\"start_time\":"@
    } else if k == 3 {
        dec_str(c.start_time as nat)
    } else if k == 4 {
        ",\"duration_seconds\":"@
    } else if k == 5 {
        dec_str(c.duration_seconds as nat)
    } else if k == 6 {
        ",\"work_seconds\":"@
    } else if k == 7 {
        dec_str(c.work_seconds as nat)
    } else if k == 8 {
        ",\"break_seconds\":"@
    } else if k == 9 {
        dec_str(c.break_seconds as nat)
    } else if k == 10 {
        ",\"long_break_seconds\":"@
    } else if k == 11 {
        dec_str(c.long_break_seconds as nat)
    } else if k == 12 {
        ",\"sessions_until_long_break\":"@
    } else if k == 13 {
        dec_str(c.sessions_until_long_break as nat)
    } else if k == 14 {
        ",\"current_session_count\":"@
    } else if k == 15 {
        dec_str(c.current_session_count as nat)
    } else if k == 16 {
        ",\"auto_advance\":\""@
    } else if k == 17 {
        mode_word(c.auto_advance)
    } else if k == 18 {
        "\",\"is_paused\":"@
    } else if k == 19 {
        bool_word(c.is_paused)
    } else if k == 20 {
        ",\"paused_elapsed_seconds\":"@
    } else if k == 21 {
        opt_u64_text(c.paused_elapsed_seconds)
    } else if k == 22 {
        ",\"pending_hook\":"@
    } else if k == 23 {
        opt_hook_text(c.pending_hook)
    } else {
        "}"@
    }
}

/// The number of pieces of a state document.
pub const STATE_SEGS: usize = 25;

/// The pieces of the state document for `c`, in order.
pub open spec fn state_segments(c: TimerState) -> Seq<Seq<char>> {
    Seq::new(STATE_SEGS as nat, |k: int| state_seg(c, k))
}

/// The canonical state document for a clock.
pub open spec fn spec_render_state(c: TimerState) -> Seq<char> {
    cat_from(state_segments(c), 0)
}

/// Returns the serialized word for a phase.
pub fn phase_text(p: Phase) -> (r: &'static str)
    ensures
        r@ == phase_word(p),
{
    match p {
        Phase::Work => "work",
        Phase::Break => "break",
        Phase::LongBreak => "long_break",
    }
}

/// Returns the serialized word for an auto-advance mode.
pub fn mode_text(m: AutoAdvance) -> (r: &'static str)
    ensures
        r@ == mode_word(m),
{
    match m {
        AutoAdvance::Never => "none",
        AutoAdvance::All => "all",
        AutoAdvance::ToBreak => "to_break",
        AutoAdvance::ToWork => "to_work",
    }
}

/// Returns the serialized word for a boolean.
pub fn bool_text(b: bool) -> (r: &'static str)
    ensures
        r@ == bool_word(b),
{
    if b {
        "true"
    } else {
        "false"
    }
}

/// Returns the text of an optional count of seconds.
pub fn opt_u64_to_string(o: &Option<u64>) -> (r: String)
    ensures
        r@ == opt_u64_text(*o),
{
    match o {
        None => String::from_str("null"),
        Some(v) => u64_to_string(*v),
    }
}

/// Returns the text of an optional pending hook.
pub fn opt_hook_to_string(o: &Option<HookEvent>) -> (r: String)
    ensures
        r@ == opt_hook_text(*o),
{
    match o {
        None => String::from_str("null"),
        Some(HookEvent::WorkStart) => String::from_str("\"work_start\""),
        Some(HookEvent::BreakStart) => String::from_str("\"break_start\""),
        Some(HookEvent::LongBreakStart) => String::from_str("\"long_break_start\""),
    }
}

/// Returns the `k`-th piece of the state document for `c`.
fn state_seg_text(c: &TimerState, k: usize) -> (r: String)
    requires
        k < STATE_SEGS,
    ensures
        r@ == state_seg(*c, k as int),
{
    if k == 0 {
        String::from_str("{\"phase\":\"")
    } else if k == 1 {
        String::from_str(phase_text(c.phase))
    } else if k == 2 {
        String::from_str("\",\"start_time\":")
    } else if k == 3 {
        u64_to_string(c.start_time)
    } else if k == 4 {
        String::from_str(",\"duration_seconds\":")
    } else if k == 5 {
        u64_to_string(c.duration_seconds)
    } else if k == 6 {
        String::from_str(",\"work_seconds\":")
    } else if k == 7 {
        u64_to_string(c.work_seconds)
    } else if k == 8 {
        String::from_str(",\"break_seconds\":")
    } else if k == 9 {
        u64_to_string(c.break_seconds)
    } else if k == 10 {
        String::from_str(",\"long_break_seconds\":")
    } else if k == 11 {
        u64_to_string(c.long_break_seconds)
    } else if k == 12 {
        String::from_str(",\"sessions_until_long_break\":")
    } else if k == 13 {
        u64_to_string(c.sessions_until_long_break as u64)
    } else if k == 14 {
        String::from_str(",\"current_session_count\":")
    } else if k == 15 {
        u64_to_string(c.current_session_count as u64)
    } else if k == 16 {
        String::from_str(",\"auto_advance\":\"")
    } else if k == 17 {
        String::from_str(mode_text(c.auto_advance))
    } else if k == 18 {
        String::from_str("\",\"is_paused\":")
    } else if k == 19 {
        String::from_str(bool_text(c.is_paused))
    } else if k == 20 {
        String::from_str(",\"paused_elapsed_seconds\":")
    } else if k == 21 {
        opt_u64_to_string(&c.paused_elapsed_seconds)
    } else if k == 22 {
        String::from_str(",\"pending_hook\":")
    } else if k == 23 {
        opt_hook_to_string(&c.pending_hook)
    } else {
        String::from_str("}")
    }
}

/// Renders the pieces of the state document from index `k` on.
fn render_state_from(c: &TimerState, k: usize) -> (r: String)
    requires
        k <= STATE_SEGS,
    ensures
        r@ == cat_from(state_segments(*c), k as int),
    decreases STATE_SEGS - k,
{
    if k == STATE_SEGS {
        String::new()
    } else {
        let head = state_seg_text(c, k);
        head.concat(render_state_from(c, k + 1).as_str())
    }
}

/// Renders the canonical state document for a clock.
pub fn render_state(c: &TimerState) -> (r: String)
    ensures
        r@ == spec_render_state(*c),
{
    render_state_from(c, 0)
}

/// What scanning for a phase word at `pos` yields.
pub open spec fn spec_eat_phase(s: Seq<char>, pos: int) -> Option<(Phase, int)> {
    if matches_at(s, pos, "work"@) {
        Some((Phase::Work, pos + "work"@.len()))
    } else if matches_at(s, pos, "break"@) {
        Some((Phase::Break, pos + "break"@.len()))
    } else if matches_at(s, pos, "long_break"@) {
        Some((Phase::LongBreak, pos + "long_break"@.len()))
    } else {
        None
    }
}

/// Scans a phase word.
pub fn eat_phase(s: &str, pos: usize) -> (r: Option<(Phase, usize)>)
    requires
        pos <= s@.len(),
    ensures
        match spec_eat_phase(s@, pos as int) {
            Some((p, q)) => r == Some((p, q as usize)) && pos <= q <= s@.len(),
            None => r is None,
        },
{
    if let Some(q) = eat_lit(s, pos, "work") {
        Some((Phase::Work, q))
    } else if let Some(q) = eat_lit(s, pos, "break") {
        Some((Phase::Break, q))
    } else if let Some(q) = eat_lit(s, pos, "long_break") {
        Some((Phase::LongBreak, q))
    } else {
        None
    }
}

/// A rendered phase word is scanned back as exactly that phase.
pub proof fn lemma_eat_phase_exact(s: Seq<char>, pos: int, p: Phase)
    requires
        matches_at(s, pos, phase_word(p)),
    ensures
        spec_eat_phase(s, pos) == Some((p, pos + phase_word(p).len())),
{
    reveal_strlit("work");
    reveal_strlit("break");
    reveal_strlit("long_break");
    match p {
        Phase::Work => {
        },
        Phase::Break => {
            if matches_at(s, pos, "work"@) {
                assert(s.subrange(pos, pos + "work"@.len())[0] == s[pos]);
                assert(s.subrange(pos, pos + "break"@.len())[0] == s[pos]);
                assert(false);
            }
        },
        Phase::LongBreak => {
            if matches_at(s, pos, "work"@) {
                assert(s.subrange(pos, pos + "work"@.len())[0] == s[pos]);
                assert(s.subrange(pos, pos + "long_break"@.len())[0] == s[pos]);
                assert(false);
            }
            if matches_at(s, pos, "break"@) {
                assert(s.subrange(pos, pos + "break"@.len())[0] == s[pos]);
                assert(s.subrange(pos, pos + "long_break"@.len())[0] == s[pos]);
                assert(false);
            }
        },
    }
}

/// What scanning for a mode word at `pos` yields.
pub open spec fn spec_eat_mode(s: Seq<char>, pos: int) -> Option<(AutoAdvance, int)> {
    if matches_at(s, pos, "none"@) {
        Some((AutoAdvance::Never, pos + "none"@.len()))
    } else if matches_at(s, pos, "all"@) {
        Some((AutoAdvance::All, pos + "all"@.len()))
    } else if matches_at(s, pos, "to_break"@) {
        Some((AutoAdvance::ToBreak, pos + "to_break"@.len()))
    } else if matches_at(s, pos, "to_work"@) {
        Some((AutoAdvance::ToWork, pos + "to_work"@.len()))
    } else {
        None
    }
}

/// Scans a mode word.
pub fn eat_mode(s: &str, pos: usize) -> (r: Option<(AutoAdvance, usize)>)
    requires
        pos <= s@.len(),
    ensures
        match spec_eat_mode(s@, pos as int) {
            Some((m, q)) => r == Some((m, q as usize)) && pos <= q <= s@.len(),
            None => r is None,
        },
{
    if let Some(q) = eat_lit(s, pos, "none") {
        Some((AutoAdvance::Never, q))
    } else if let Some(q) = eat_lit(s, pos, "all") {
        Some((AutoAdvance::All, q))
    } else if let Some(q) = eat_lit(s, pos, "to_break") {
        Some((AutoAdvance::ToBreak, q))
    } else if let Some(q) = eat_lit(s, pos, "to_work") {
        Some((AutoAdvance::ToWork, q))
    } else {
        None
    }
}

/// A rendered mode word is scanned back as exactly that mode.
pub proof fn lemma_eat_mode_exact(s: Seq<char>, pos: int, m: AutoAdvance)
    requires
        matches_at(s, pos, mode_word(m)),
    ensures
        spec_eat_mode(s, pos) == Some((m, pos + mode_word(m).len())),
{
    reveal_strlit("none");
    reveal_strlit("all");
    reveal_strlit("to_break");
    reveal_strlit("to_work");
    match m {
        AutoAdvance::Never => {
        },
        AutoAdvance::All => {
            if matches_at(s, pos, "none"@) {
                assert(s.subrange(pos, pos + "none"@.len())[0] == s[pos]);
                assert(s.subrange(pos, pos + "all"@.len())[0] == s[pos]);
                assert(false);
            }
        },
        AutoAdvance::ToBreak => {
            if matches_at(s, pos, "none"@) {
                assert(s.subrange(pos, pos + "none"@.len())[0] == s[pos]);
                assert(s.subrange(pos, pos + "to_break"@.len())[0] == s[pos]);
                assert(false);
            }
            if matches_at(s, pos, "all"@) {
                assert(s.subrange(pos, pos + "all"@.len())[0] == s[pos]);
                assert(s.subrange(pos, pos + "to_break"@.len())[0] == s[pos]);
                assert(false);
            }
        },
        AutoAdvance::ToWork => {
            if matches_at(s, pos, "none"@) {
                assert(s.subrange(pos, pos + "none"@.len())[0] == s[pos]);
                assert(s.subrange(pos, pos + "to_work"@.len())[0] == s[pos]);
                assert(false);
            }
            if matches_at(s, pos, "all"@) {
                assert(s.subrange(pos, pos + "all"@.len())[0] == s[pos]);
                assert(s.subrange(pos, pos + "to_work"@.len())[0] == s[pos]);
                assert(false);
            }
            if matches_at(s, pos, "to_break"@) {
                assert(s.subrange(pos, pos + "to_break"@.len())[3] == s[pos + 3]);
                assert(s.subrange(pos, pos + "to_work"@.len())[3] == s[pos + 3]);
                assert(false);
            }
        },
    }
}

/// What scanning for a boolean word at `pos` yields.
pub open spec fn spec_eat_bool(s: Seq<char>, pos: int) -> Option<(bool, int)> {
    if matches_at(s, pos, "true"@) {
        Some((true, pos + "true"@.len()))
    } else if matches_at(s, pos, "false"@) {
        Some((false, pos + "false"@.len()))
    } else {
        None
    }
}

/// Scans a boolean word.
pub fn eat_bool(s: &str, pos: usize) -> (r: Option<(bool, usize)>)
    requires
        pos <= s@.len(),
    ensures
        match spec_eat_bool(s@, pos as int) {
            Some((b, q)) => r == Some((b, q as usize)) && pos <= q <= s@.len(),
            None => r is None,
        },
{
    if let Some(q) = eat_lit(s, pos, "true") {
        Some((true, q))
    } else if let Some(q) = eat_lit(s, pos, "false") {
        Some((false, q))
    } else {
        None
    }
}

/// A rendered boolean word is scanned back as exactly that boolean.
pub proof fn lemma_eat_bool_exact(s: Seq<char>, pos: int, b: bool)
    requires
        matches_at(s, pos, bool_word(b)),
    ensures
        spec_eat_bool(s, pos) == Some((b, pos + bool_word(b).len())),
{
    reveal_strlit("true");
    reveal_strlit("false");
    if !b {
        if matches_at(s, pos, "true"@) {
            assert(s.subrange(pos, pos + "true"@.len())[0] == s[pos]);
            assert(s.subrange(pos, pos + "false"@.len())[0] == s[pos]);
            assert(false);
        }
    }
}


/// What scanning for `null` or a number at `pos` yields.
pub open spec fn spec_eat_opt_u64(s: Seq<char>, pos: int) -> Option<(Option<u64>, int)> {
    if matches_at(s, pos, "null"@) {
        Some((None, pos + "null"@.len()))
    } else {
        match spec_eat_u64(s, pos) {
            Some((v, q)) => Some((Some(v), q)),
            None => None,
        }
    }
}

/// Scans `null` or a number.
pub fn eat_opt_u64(s: &str, pos: usize) -> (r: Option<(Option<u64>, usize)>)
    requires
        pos <= s@.len(),
    ensures
        match spec_eat_opt_u64(s@, pos as int) {
            Some((o, q)) => r == Some((o, q as usize)) && pos <= q <= s@.len(),
            None => r is None,
        },
{
    if let Some(q) = eat_lit(s, pos, "null") {
        Some((None, q))
    } else if let Some((v, q)) = eat_u64(s, pos) {
        Some((Some(v), q))
    } else {
        None
    }
}

/// A rendered optional number followed by a non-digit is scanned back as
/// exactly that value.
pub proof fn lemma_eat_opt_u64_exact(s: Seq<char>, pos: int, o: Option<u64>)
    requires
        matches_at(s, pos, opt_u64_text(o)),
        pos + opt_u64_text(o).len() == s.len() || !is_digit(s[pos + opt_u64_text(o).len()]),
    ensures
        spec_eat_opt_u64(s, pos) == Some((o, pos + opt_u64_text(o).len())),
{
    reveal_strlit("null");
    match o {
        None => {
        },
        Some(v) => {
            lemma_dec_str_props(v as nat);
            if matches_at(s, pos, "null"@) {
                assert(s.subrange(pos, pos + "null"@.len())[0] == s[pos]);
                assert(s.subrange(pos, pos + dec_str(v as nat).len())[0] == s[pos]);
                assert(is_digit(s[pos]));
                assert(false);
            }
            lemma_eat_u64_exact(s, pos, v);
        },
    }
}

/// What scanning for `null` or a quoted hook word at `pos` yields.
pub open spec fn spec_eat_opt_hook(s: Seq<char>, pos: int) -> Option<(Option<HookEvent>, int)> {
    if matches_at(s, pos, "null"@) {
        Some((None, pos + "null"@.len()))
    } else if matches_at(s, pos, "\"work_start\""@) {
        Some((Some(HookEvent::WorkStart), pos + "\"work_start\""@.len()))
    } else if matches_at(s, pos, "\"break_start\""@) {
        Some((Some(HookEvent::BreakStart), pos + "\"break_start\""@.len()))
    } else if matches_at(s, pos, "\"long_break_start\""@) {
        Some((Some(HookEvent::LongBreakStart), pos + "\"long_break_start\""@.len()))
    } else {
        None
    }
}

/// Scans `null` or a quoted hook word.
pub fn eat_opt_hook(s: &str, pos: usize) -> (r: Option<(Option<HookEvent>, usize)>)
    requires
        pos <= s@.len(),
    ensures
        match spec_eat_opt_hook(s@, pos as int) {
            Some((o, q)) => r == Some((o, q as usize)) && pos <= q <= s@.len(),
            None => r is None,
        },
{
    if let Some(q) = eat_lit(s, pos, "null") {
        Some((None, q))
    } else if let Some(q) = eat_lit(s, pos, "\"work_start\"") {
        Some((Some(HookEvent::WorkStart), q))
    } else if let Some(q) = eat_lit(s, pos, "\"break_start\"") {
        Some((Some(HookEvent::BreakStart), q))
    } else if let Some(q) = eat_lit(s, pos, "\"long_break_start\"") {
        Some((Some(HookEvent::LongBreakStart), q))
    } else {
        None
    }
}

/// A rendered optional hook is scanned back as exactly that value.
pub proof fn lemma_eat_opt_hook_exact(s: Seq<char>, pos: int, o: Option<HookEvent>)
    requires
        matches_at(s, pos, opt_hook_text(o)),
    ensures
        spec_eat_opt_hook(s, pos) == Some((o, pos + opt_hook_text(o).len())),
{
    reveal_strlit("null");
    reveal_strlit("\"work_start\"");
    reveal_strlit("\"break_start\"");
    reveal_strlit("\"long_break_start\"");
    match o {
        None => {
        },
        Some(h) => {
            if matches_at(s, pos, "null"@) {
                assert(s.subrange(pos, pos + "null"@.len())[0] == s[pos]);
                assert(s.subrange(pos, pos + opt_hook_text(o).len())[0] == s[pos]);
                assert(false);
            }
            match h {
                HookEvent::WorkStart => {
                },
                HookEvent::BreakStart => {
                    if matches_at(s, pos, "\"work_start\""@) {
                        assert(s.subrange(pos, pos + "\"work_start\""@.len())[1] == s[pos + 1]);
                        assert(s.subrange(pos, pos + opt_hook_text(o).len())[1] == s[pos + 1]);
                        assert(false);
                    }
                },
                HookEvent::LongBreakStart => {
                    if matches_at(s, pos, "\"work_start\""@) {
                        assert(s.subrange(pos, pos + "\"work_start\""@.len())[1] == s[pos + 1]);
                        assert(s.subrange(pos, pos + opt_hook_text(o).len())[1] == s[pos + 1]);
                        assert(false);
                    }
                    if matches_at(s, pos, "\"break_start\""@) {
                        assert(s.subrange(pos, pos + "\"break_start\""@.len())[1] == s[pos + 1]);
                        assert(s.subrange(pos, pos + opt_hook_text(o).len())[1] == s[pos + 1]);
                        assert(false);
                    }
                },
            }
        },
    }
}

/// Scanning a rendered state document step by step recovers every field at
/// the expected position and ends exactly at the end of the document.
#[verifier::rlimit(100)]
#[verifier::spinoff_prover]
pub proof fn lemma_state_parse_path(s: Seq<char>, c: TimerState)
    requires
        c.wf(),
        s == spec_render_state(c),
    ensures
        ({
            let p1 = "{\"phase\":\""@.len() as int;
            let p2 = p1 + phase_word(c.phase).len();
            let p3 = p2 + "\",\"start_time\":"@.len();
            let p4 = p3 + dec_str(c.start_time as nat).len();
            let p5 = p4 + ",\"duration_seconds\":"@.len();
            let p6 = p5 + dec_str(c.duration_seconds as nat).len();
            let p7 = p6 + ",\"work_seconds\":"@.len();
            let p8 = p7 + dec_str(c.work_seconds as nat).len();
            let p9 = p8 + ",\"break_seconds\":"@.len();
            let p10 = p9 + dec_str(c.break_seconds as nat).len();
            let p11 = p10 + ",\"long_break_seconds\":"@.len();
            let p12 = p11 + dec_str(c.long_break_seconds as nat).len();
            let p13 = p12 + ",\"sessions_until_long_break\":"@.len();
            let p14 = p13 + dec_str(c.sessions_until_long_break as nat).len();
            let p15 = p14 + ",\"current_session_count\":"@.len();
            let p16 = p15 + dec_str(c.current_session_count as nat).len();
            let p17 = p16 + ",\"auto_advance\":\""@.len();
            let p18 = p17 + mode_word(c.auto_advance).len();
            let p19 = p18 + "\",\"is_paused\":"@.len();
            let p20 = p19 + bool_word(c.is_paused).len();
            let p21 = p20 + ",\"paused_elapsed_seconds\":"@.len();
            let p22 = p21 + opt_u64_text(c.paused_elapsed_seconds).len();
            let p23 = p22 + ",\"pending_hook\":"@.len();
            let p24 = p23 + opt_hook_text(c.pending_hook).len();
            let p25 = p24 + "}"@.len();
            &&& spec_eat_lit(s, 0, "{\"phase\":\""@) == Some(p1)
            &&& spec_eat_phase(s, p1) == Some((c.phase, p2))
            &&& spec_eat_lit(s, p2, "\",\"start_time\":"@) == Some(p3)
            &&& spec_eat_u64(s, p3) == Some((c.start_time, p4))
            &&& spec_eat_lit(s, p4, ",\"duration_seconds\":"@) == Some(p5)
            &&& spec_eat_u64(s, p5) == Some((c.duration_seconds, p6))
            &&& spec_eat_lit(s, p6, ",\"work_seconds\":"@) == Some(p7)
            &&& spec_eat_u64(s, p7) == Some((c.work_seconds, p8))
            &&& spec_eat_lit(s, p8, ",\"break_seconds\":"@) == Some(p9)
            &&& spec_eat_u64(s, p9) == Some((c.break_seconds, p10))
            &&& spec_eat_lit(s, p10, ",\"long_break_seconds\":"@) == Some(p11)
            &&& spec_eat_u64(s, p11) == Some((c.long_break_seconds, p12))
            &&& spec_eat_lit(s, p12, ",\"sessions_until_long_break\":"@) == Some(p13)
            &&& spec_eat_u64(s, p13) == Some((c.sessions_until_long_break as u64, p14))
            &&& spec_eat_lit(s, p14, ",\"current_session_count\":"@) == Some(p15)
            &&& spec_eat_u64(s, p15) == Some((c.current_session_count as u64, p16))
            &&& spec_eat_lit(s, p16, ",\"auto_advance\":\""@) == Some(p17)
            &&& spec_eat_mode(s, p17) == Some((c.auto_advance, p18))
            &&& spec_eat_lit(s, p18, "\",\"is_paused\":"@) == Some(p19)
            &&& spec_eat_bool(s, p19) == Some((c.is_paused, p20))
            &&& spec_eat_lit(s, p20, ",\"paused_elapsed_seconds\":"@) == Some(p21)
            &&& spec_eat_opt_u64(s, p21) == Some((c.paused_elapsed_seconds, p22))
            &&& spec_eat_lit(s, p22, ",\"pending_hook\":"@) == Some(p23)
            &&& spec_eat_opt_hook(s, p23) == Some((c.pending_hook, p24))
            &&& spec_eat_lit(s, p24, "}"@) == Some(p25)
            &&& p25 == s.len()
        }),
{
    let p1 = "{\"phase\":\""@.len() as int;
    let p2 = p1 + phase_word(c.phase).len();
    let p3 = p2 + "\",\"start_time\":"@.len();
    let p4 = p3 + dec_str(c.start_time as nat).len();
    let p5 = p4 + ",\"duration_seconds\":"@.len();
    let p6 = p5 + dec_str(c.duration_seconds as nat).len();
    let p7 = p6 + ",\"work_seconds\":"@.len();
    let p8 = p7 + dec_str(c.work_seconds as nat).len();
    let p9 = p8 + ",\"break_seconds\":"@.len();
    let p10 = p9 + dec_str(c.break_seconds as nat).len();
    let p11 = p10 + ",\"long_break_seconds\":"@.len();
    let p12 = p11 + dec_str(c.long_break_seconds as nat).len();
    let p13 = p12 + ",\"sessions_until_long_break\":"@.len();
    let p14 = p13 + dec_str(c.sessions_until_long_break as nat).len();
    let p15 = p14 + ",\"current_session_count\":"@.len();
    let p16 = p15 + dec_str(c.current_session_count as nat).len();
    let p17 = p16 + ",\"auto_advance\":\""@.len();
    let p18 = p17 + mode_word(c.auto_advance).len();
    let p19 = p18 + "\",\"is_paused\":"@.len();
    let p20 = p19 + bool_word(c.is_paused).len();
    let p21 = p20 + ",\"paused_elapsed_seconds\":"@.len();
    let p22 = p21 + opt_u64_text(c.paused_elapsed_seconds).len();
    let p23 = p22 + ",\"pending_hook\":"@.len();
    let p24 = p23 + opt_hook_text(c.pending_hook).len();
    let p25 = p24 + "}"@.len();
    let segs = state_segments(c);
    assert forall|k: int| 0 <= k < STATE_SEGS implies segs[k] == state_seg(c, k) by {}
    assert(pos_of(segs, 0) == 0);
    assert(pos_of(segs, 1) == p1);
    assert(pos_of(segs, 2) == p2);
    assert(pos_of(segs, 3) == p3);
    assert(pos_of(segs, 4) == p4);
    assert(pos_of(segs, 5) == p5);
    assert(pos_of(segs, 6) == p6);
    assert(pos_of(segs, 7) == p7);
    assert(pos_of(segs, 8) == p8);
    assert(pos_of(segs, 9) == p9);
    assert(pos_of(segs, 10) == p10);
    assert(pos_of(segs, 11) == p11);
    assert(pos_of(segs, 12) == p12);
    assert(pos_of(segs, 13) == p13);
    assert(pos_of(segs, 14) == p14);
    assert(pos_of(segs, 15) == p15);
    assert(pos_of(segs, 16) == p16);
    assert(pos_of(segs, 17) == p17);
    assert(pos_of(segs, 18) == p18);
    assert(pos_of(segs, 19) == p19);
    assert(pos_of(segs, 20) == p20);
    assert(pos_of(segs, 21) == p21);
    assert(pos_of(segs, 22) == p22);
    assert(pos_of(segs, 23) == p23);
    assert(pos_of(segs, 24) == p24);
    assert(pos_of(segs, 25) == p25);
    lemma_cat_from_len(segs, 0);
    assert(s.len() == p25);
    lemma_cat_matches(segs, 0);
    lemma_cat_matches(segs, 1);
    lemma_cat_matches(segs, 2);
    lemma_cat_matches(segs, 3);
    lemma_cat_matches(segs, 4);
    lemma_cat_matches(segs, 5);
    lemma_cat_matches(segs, 6);
    lemma_cat_matches(segs, 7);
    lemma_cat_matches(segs, 8);
    lemma_cat_matches(segs, 9);
    lemma_cat_matches(segs, 10);
    lemma_cat_matches(segs, 11);
    lemma_cat_matches(segs, 12);
    lemma_cat_matches(segs, 13);
    lemma_cat_matches(segs, 14);
    lemma_cat_matches(segs, 15);
    lemma_cat_matches(segs, 16);
    lemma_cat_matches(segs, 17);
    lemma_cat_matches(segs, 18);
    lemma_cat_matches(segs, 19);
    lemma_cat_matches(segs, 20);
    lemma_cat_matches(segs, 21);
    lemma_cat_matches(segs, 22);
    lemma_cat_matches(segs, 23);
    lemma_cat_matches(segs, 24);
    lemma_eat_phase_exact(s, p1, c.phase);
    reveal_strlit(",\"duration_seconds\":");
    assert(s.subrange(p4, p5)[0] == s[p4]);
    assert(!is_digit(s[p4]));
    lemma_eat_u64_exact(s, p3, c.start_time);
    reveal_strlit(",\"work_seconds\":");
    assert(s.subrange(p6, p7)[0] == s[p6]);
    assert(!is_digit(s[p6]));
    lemma_eat_u64_exact(s, p5, c.duration_seconds);
    reveal_strlit(",\"break_seconds\":");
    assert(s.subrange(p8, p9)[0] == s[p8]);
    assert(!is_digit(s[p8]));
    lemma_eat_u64_exact(s, p7, c.work_seconds);
    reveal_strlit(",\"long_break_seconds\":");
    assert(s.subrange(p10, p11)[0] == s[p10]);
    assert(!is_digit(s[p10]));
    lemma_eat_u64_exact(s, p9, c.break_seconds);
    reveal_strlit(",\"sessions_until_long_break\":");
    assert(s.subrange(p12, p13)[0] == s[p12]);
    assert(!is_digit(s[p12]));
    lemma_eat_u64_exact(s, p11, c.long_break_seconds);
    reveal_strlit(",\"current_session_count\":");
    assert(s.subrange(p14, p15)[0] == s[p14]);
    assert(!is_digit(s[p14]));
    lemma_eat_u64_exact(s, p13, c.sessions_until_long_break as u64);
    reveal_strlit(",\"auto_advance\":\"");
    assert(s.subrange(p16, p17)[0] == s[p16]);
    assert(!is_digit(s[p16]));
    lemma_eat_u64_exact(s, p15, c.current_session_count as u64);
    lemma_eat_mode_exact(s, p17, c.auto_advance);
    lemma_eat_bool_exact(s, p19, c.is_paused);
    reveal_strlit(",\"pending_hook\":");
    assert(s.subrange(p22, p23)[0] == s[p22]);
    assert(!is_digit(s[p22]));
    lemma_eat_opt_u64_exact(s, p21, c.paused_elapsed_seconds);
    lemma_eat_opt_hook_exact(s, p23, c.pending_hook);
}

/// Reads a state document back into a clock. Anything malformed or out of
/// range yields `None`; a document `render_state` produced yields exactly the
/// clock it was rendered from — the round trip `parse(render(c)) == Some(c)`
/// is the second clause of the contract.
pub fn parse_state(s: &str) -> (r: Option<TimerState>)
    ensures
        r matches Some(c) ==> c.wf(),
        forall|c: TimerState|
            c.wf() && s@ == #[trigger] spec_render_state(c) ==> r == Some(c),
{
    let opt = parse_state_fields(s);
    match opt {
        Some(c) => {
            if 1 <= c.duration_seconds && c.duration_seconds <= MAX_DURATION_SECONDS && 1
                <= c.work_seconds && c.work_seconds <= MAX_DURATION_SECONDS && 1
                <= c.break_seconds && c.break_seconds <= MAX_DURATION_SECONDS && 1
                <= c.long_break_seconds && c.long_break_seconds <= MAX_DURATION_SECONDS && 1
                <= c.sessions_until_long_break && c.sessions_until_long_break <= MAX_SESSIONS
                && c.current_session_count < c.sessions_until_long_break && c.start_time
                <= MAX_TIMESTAMP && (c.is_paused || matches!(c.paused_elapsed_seconds, None))
                && (match c.paused_elapsed_seconds {
                Some(e) => e <= MAX_TIMESTAMP,
                None => true,
            }) {
                Some(c)
            } else {
                proof {
                    assert forall|c2: TimerState|
                        c2.wf() && s@ == #[trigger] spec_render_state(c2) implies false by {
                        lemma_state_parse_path(s@, c2);
                    }
                }
                None
            }
        },
        None => None,
    }
}

/// The position at which the second half of a state document begins: right
/// after the rendered `long_break_seconds` value.
pub open spec fn spec_state_mid(c: TimerState) -> int {
    "{\"phase\":\""@.len() as int + phase_word(c.phase).len() + "\",\"start_time\":"@.len() + dec_str(
        c.start_time as nat,
    ).len() + ",\"duration_seconds\":"@.len() + dec_str(c.duration_seconds as nat).len()
        + ",\"work_seconds\":"@.len() + dec_str(c.work_seconds as nat).len()
        + ",\"break_seconds\":"@.len() + dec_str(c.break_seconds as nat).len()
        + ",\"long_break_seconds\":"@.len() + dec_str(c.long_break_seconds as nat).len()
}

/// Scans the first half of a state document: the phase and the five duration
/// fields, up to `spec_state_mid`.
#[verifier::rlimit(100)]
#[verifier::spinoff_prover]
fn parse_state_head(s: &str) -> (r: Option<(Phase, u64, u64, u64, u64, u64, usize)>)
    ensures
        r matches Some(t) ==> t.6 <= s@.len(),
        forall|c: TimerState|
            c.wf() && s@ == #[trigger] spec_render_state(c) ==> (r matches Some(t) && t.0
                == c.phase && t.1 == c.start_time && t.2 == c.duration_seconds && t.3
                == c.work_seconds && t.4 == c.break_seconds && t.5 == c.long_break_seconds
                && t.6 as int == spec_state_mid(c)),
{
    let total = s.unicode_len();
    proof {
        assert(s@.len() == total);
    }
    let q1 = eat_lit(s, 0, "{\"phase\":\"");
    let t_phase = match q1 {
        Some(p) => eat_phase(s, p),
        None => None,
    };
    let q3 = match t_phase {
        Some((_, p)) => eat_lit(s, p, "\",\"start_time\":"),
        None => None,
    };
    let t_start = match q3 {
        Some(p) => eat_u64(s, p),
        None => None,
    };
    let q5 = match t_start {
        Some((_, p)) => eat_lit(s, p, ",\"duration_seconds\":"),
        None => None,
    };
    let t_duration = match q5 {
        Some(p) => eat_u64(s, p),
        None => None,
    };
    let q7 = match t_duration {
        Some((_, p)) => eat_lit(s, p, ",\"work_seconds\":"),
        None => None,
    };
    let t_work = match q7 {
        Some(p) => eat_u64(s, p),
        None => None,
    };
    let q9 = match t_work {
        Some((_, p)) => eat_lit(s, p, ",\"break_seconds\":"),
        None => None,
    };
    let t_break = match q9 {
        Some(p) => eat_u64(s, p),
        None => None,
    };
    let q11 = match t_break {
        Some((_, p)) => eat_lit(s, p, ",\"long_break_seconds\":"),
        None => None,
    };
    let t_long = match q11 {
        Some(p) => eat_u64(s, p),
        None => None,
    };
    match (t_phase, t_start, t_duration, t_work, t_break, t_long) {
        (
            Some((phase, _)),
            Some((start_time, _)),
            Some((duration_seconds, _)),
            Some((work_seconds, _)),
            Some((break_seconds, _)),
            Some((long_break_seconds, mid)),
        ) => {
            let out = (
                phase,
                start_time,
                duration_seconds,
                work_seconds,
                break_seconds,
                long_break_seconds,
                mid,
            );
            proof {
                assert forall|c: TimerState|
                    c.wf() && s@ == #[trigger] spec_render_state(c) implies (out.0 == c.phase
                    && out.1 == c.start_time && out.2 == c.duration_seconds && out.3
                    == c.work_seconds && out.4 == c.break_seconds && out.5
                    == c.long_break_seconds && out.6 as int == spec_state_mid(c)) by {
                    lemma_state_parse_path(s@, c);
                }
            }
            Some(out)
        },
        _ => {
            proof {
                assert forall|c: TimerState|
                    c.wf() && s@ == #[trigger] spec_render_state(c) implies false by {
                    lemma_state_parse_path(s@, c);
                }
            }
            None
        },
    }
}

/// Scans the second half of a state document, from `spec_state_mid` on: the
/// session counters, the mode, and the pause bookkeeping, through the closing
/// brace at the very end of the text.
#[verifier::rlimit(100)]
#[verifier::spinoff_prover]
fn parse_state_tail(s: &str, pos: usize) -> (r: Option<
    (u64, u64, AutoAdvance, bool, Option<u64>, Option<HookEvent>),
>)
    requires
        pos <= s@.len(),
    ensures
        forall|c: TimerState|
            c.wf() && s@ == #[trigger] spec_render_state(c) && pos as int == spec_state_mid(c)
                ==> r == Some(
                (
                    c.sessions_until_long_break as u64,
                    c.current_session_count as u64,
                    c.auto_advance,
                    c.is_paused,
                    c.paused_elapsed_seconds,
                    c.pending_hook,
                ),
            ),
{
    let len = s.unicode_len();
    let q13 = eat_lit(s, pos, ",\"sessions_until_long_break\":");
    let t_sessions = match q13 {
        Some(p) => eat_u64(s, p),
        None => None,
    };
    let q15 = match t_sessions {
        Some((_, p)) => eat_lit(s, p, ",\"current_session_count\":"),
        None => None,
    };
    let t_count = match q15 {
        Some(p) => eat_u64(s, p),
        None => None,
    };
    let q17 = match t_count {
        Some((_, p)) => eat_lit(s, p, ",\"auto_advance\":\""),
        None => None,
    };
    let t_mode = match q17 {
        Some(p) => eat_mode(s, p),
        None => None,
    };
    let q19 = match t_mode {
        Some((_, p)) => eat_lit(s, p, "\",\"is_paused\":"),
        None => None,
    };
    let t_paused = match q19 {
        Some(p) => eat_bool(s, p),
        None => None,
    };
    let q21 = match t_paused {
        Some((_, p)) => eat_lit(s, p, ",\"paused_elapsed_seconds\":"),
        None => None,
    };
    let t_elapsed = match q21 {
        Some(p) => eat_opt_u64(s, p),
        None => None,
    };
    let q23 = match t_elapsed {
        Some((_, p)) => eat_lit(s, p, ",\"pending_hook\":"),
        None => None,
    };
    let t_hook = match q23 {
        Some(p) => eat_opt_hook(s, p),
        None => None,
    };
    let q25 = match t_hook {
        Some((_, p)) => eat_lit(s, p, "}"),
        None => None,
    };
    match (t_sessions, t_count, t_mode, t_paused, t_elapsed, t_hook, q25) {
        (
            Some((sessions_raw, _)),
            Some((count_raw, _)),
            Some((auto_advance, _)),
            Some((is_paused, _)),
            Some((paused_elapsed_seconds, _)),
            Some((pending_hook, _)),
            Some(p25),
        ) => {
            if p25 == len {
                let out = (
                    sessions_raw,
                    count_raw,
                    auto_advance,
                    is_paused,
                    paused_elapsed_seconds,
                    pending_hook,
                );
                proof {
                    assert forall|c: TimerState|
                        c.wf() && s@ == #[trigger] spec_render_state(c) && pos as int
                            == spec_state_mid(c) implies Some(out) == Some(
                        (
                            c.sessions_until_long_break as u64,
                            c.current_session_count as u64,
                            c.auto_advance,
                            c.is_paused,
                            c.paused_elapsed_seconds,
                            c.pending_hook,
                        ),
                    ) by {
                        lemma_state_parse_path(s@, c);
                    }
                }
                Some(out)
            } else {
                proof {
                    assert forall|c: TimerState|
                        c.wf() && s@ == #[trigger] spec_render_state(c) && pos as int
                            == spec_state_mid(c) implies false by {
                        lemma_state_parse_path(s@, c);
                    }
                }
                None
            }
        },
        _ => {
            proof {
                assert forall|c: TimerState|
                    c.wf() && s@ == #[trigger] spec_render_state(c) && pos as int
                        == spec_state_mid(c) implies false by {
                    lemma_state_parse_path(s@, c);
                }
            }
            None
        },
    }
}

/// Scans the fields of a state document without range checks.
fn parse_state_fields(s: &str) -> (r: Option<TimerState>)
    ensures
        forall|c: TimerState|
            c.wf() && s@ == #[trigger] spec_render_state(c) ==> r == Some(c),
{
    match parse_state_head(s) {
        Some((phase, start_time, duration_seconds, work_seconds, break_seconds,
            long_break_seconds, mid)) => {
            match parse_state_tail(s, mid) {
                Some((sessions_raw, count_raw, auto_advance, is_paused, paused_elapsed_seconds,
                    pending_hook)) => {
                    if sessions_raw <= MAX_SESSIONS as u64 && count_raw <= MAX_SESSIONS as u64 {
                        Some(
                            TimerState {
                                phase,
                                start_time,
                                duration_seconds,
                                work_seconds,
                                break_seconds,
                                long_break_seconds,
                                sessions_until_long_break: sessions_raw as u32,
                                current_session_count: count_raw as u32,
                                auto_advance,
                                is_paused,
                                paused_elapsed_seconds,
                                pending_hook,
                            },
                        )
                    } else {
                        None
                    }
                },
                None => None,
            }
        },
        None => None,
    }
}

} // verus!
