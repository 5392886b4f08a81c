//! The request side of the wire protocol: one line per connection, a JSON
//! object naming a command and its arguments. `build_request` writes the
//! canonical line a client sends; `parse_request` reads one on the daemon
//! side, and reading back a built line yields exactly the command it encodes
//! — the round trip is part of `parse_request`'s contract.

use vstd::prelude::*;

use crate::clock::{MAX_DURATION_SECONDS, MAX_SESSIONS};
use crate::numtext::{
    cat_from, dec_str, eat_lit, eat_u64, is_digit, lemma_cat_from_len, lemma_cat_matches,
    lemma_dec_str_props, lemma_eat_u64_exact, matches_at, pos_of, spec_eat_lit, spec_eat_u64,
    u64_to_string,
};
use crate::phase::AutoAdvance;
use crate::statefile::{eat_mode, lemma_eat_mode_exact, mode_text, mode_word, spec_eat_mode};
use crate::status::Format;

verus! {

/// A daemon-management action of the command line.
#[derive(Clone, Copy, Debug, PartialEq, Eq, Structural)]
pub enum DaemonAction {
    Start,
    Stop,
    Status,
    Run,
}

/// One request of the wire protocol. Durations and the session target travel
/// as signed whole seconds so that out-of-range values reach validation and
/// earn a structured error rather than being bent into range.
#[derive(Clone, Copy, Debug, PartialEq, Eq, Structural)]
pub enum Command {
    Start {
        work_seconds: i64,
        break_seconds: i64,
        long_break_seconds: i64,
        sessions: i64,
        auto_advance: AutoAdvance,
    },
    Stop,
    Status { format: Format },
    Skip,
    Pause,
    Resume,
    Toggle,
    Shutdown,
}

/// The validation verdict for `start` parameters: the message of the first
/// check that fails, or nothing when all pass. Durations must be strictly
/// positive and at most 600 minutes; the session target must lie in 1..=100.
pub open spec fn spec_validate(
    work: int,
    break_time: int,
    long_break: int,
    sessions: int,
) -> Option<Seq<char>> {
    if work <= 0 {
        Some("Work duration must be greater than 0"@)
    } else if work > MAX_DURATION_SECONDS {
        Some("Work duration must be 600 minutes (10 hours) or less"@)
    } else if break_time <= 0 {
        Some("Break duration must be greater than 0"@)
    } else if break_time > MAX_DURATION_SECONDS {
        Some("Break duration must be 600 minutes (10 hours) or less"@)
    } else if long_break <= 0 {
        Some("Long break duration must be greater than 0"@)
    } else if long_break > MAX_DURATION_SECONDS {
        Some("Long break duration must be 600 minutes (10 hours) or less"@)
    } else if sessions < 1 {
        Some("Sessions must be at least 1"@)
    } else if sessions > MAX_SESSIONS {
        Some("Sessions must be 100 or less"@)
    } else {
        None
    }
}

/// Validates `start` parameters, given in whole seconds (the session target
/// as a count): `Ok` exactly when every value is in range, else the message
/// of the first failing check.
pub fn validate_timer_params(
    work: i64,
    break_time: i64,
    long_break: i64,
    sessions: i64,
) -> (r: Result<(), String>)
    ensures
        match spec_validate(work as int, break_time as int, long_break as int, sessions as int) {
            None => r is Ok,
            Some(m) => r matches Err(e) && e@ == m,
        },
{
    if work <= 0 {
        Err(String::from_str("Work duration must be greater than 0"))
    } else if work > MAX_DURATION_SECONDS as i64 {
        Err(String::from_str("Work duration must be 600 minutes (10 hours) or less"))
    } else if break_time <= 0 {
        Err(String::from_str("Break duration must be greater than 0"))
    } else if break_time > MAX_DURATION_SECONDS as i64 {
        Err(String::from_str("Break duration must be 600 minutes (10 hours) or less"))
    } else if long_break <= 0 {
        Err(String::from_str("Long break duration must be greater than 0"))
    } else if long_break > MAX_DURATION_SECONDS as i64 {
        Err(String::from_str("Long break duration must be 600 minutes (10 hours) or less"))
    } else if sessions < 1 {
        Err(String::from_str("Sessions must be at least 1"))
    } else if sessions > MAX_SESSIONS as i64 {
        Err(String::from_str("Sessions must be 100 or less"))
    } else {
        Ok(())
    }
}

/// The text of a signed whole number: a minus sign and the magnitude.
pub open spec fn spec_i64_text(v: int) -> Seq<char> {
    if v < 0 {
        seq!['-'] + dec_str((-v) as nat)
    } else {
        dec_str(v as nat)
    }
}

/// Renders a signed whole number.
pub fn i64_to_string(n: i64) -> (r: String)
    ensures
        r@ == spec_i64_text(n as int),
{
    if n >= 0 {
        u64_to_string(n as u64)
    } else {
        let mag: u64 = ((-(n + 1)) as u64) + 1;
        proof {
            assert(mag as int == -(n as int));
        }
        let mut s = String::from_str("-");
        s.append(u64_to_string(mag).as_str());
        proof {
            reveal_strlit("-");
            assert(s@ =~= spec_i64_text(n as int));
        }
        s
    }
}

/// What scanning for a signed whole number at `pos` yields: the value and the
/// position after it, or nothing when no number starts there or it does not
/// fit in an `i64`.
pub open spec fn spec_eat_i64(s: Seq<char>, pos: int) -> Option<(i64, int)> {
    if pos < s.len() && s[pos] == '-' {
        match spec_eat_u64(s, pos + 1) {
            Some((v, q)) => if v <= 0x8000000000000000u64 {
                Some(((0 - v as int) as i64, q))
            } else {
                None
            },
            None => None,
        }
    } else {
        match spec_eat_u64(s, pos) {
            Some((v, q)) => if v <= 0x7fffffffffffffffu64 {
                Some((v as i64, q))
            } else {
                None
            },
            None => None,
        }
    }
}

/// Scans a signed whole number.
pub fn eat_i64(s: &str, pos: usize) -> (r: Option<(i64, usize)>)
    requires
        pos <= s@.len(),
    ensures
        match spec_eat_i64(s@, pos as int) {
            Some((v, q)) => r == Some((v, q as usize)) && pos < q <= s@.len(),
            None => r is None,
        },
{
    let total = s.unicode_len();
    if pos < total && s.get_char(pos) == '-' {
        match eat_u64(s, pos + 1) {
            Some((v, q)) => {
                if v <= 0x8000000000000000u64 {
                    let out: i64 = if v == 0x8000000000000000u64 {
                        i64::MIN
                    } else {
                        -(v as i64)
                    };
                    Some((out, q))
                } else {
                    None
                }
            },
            None => None,
        }
    } else {
        match eat_u64(s, pos) {
            Some((v, q)) => {
                if v <= 0x7fffffffffffffffu64 {
                    Some((v as i64, q))
                } else {
                    None
                }
            },
            None => None,
        }
    }
}

/// A rendered signed number followed by a non-digit is scanned back as
/// exactly that number.
pub proof fn lemma_eat_i64_exact(s: Seq<char>, pos: int, v: i64)
    requires
        matches_at(s, pos, spec_i64_text(v as int)),
        pos + spec_i64_text(v as int).len() == s.len() || !is_digit(
            s[pos + spec_i64_text(v as int).len()],
        ),
    ensures
        spec_eat_i64(s, pos) == Some((v, pos + spec_i64_text(v as int).len())),
{
    if v >= 0 {
        lemma_dec_str_props(v as nat);
        assert(s.subrange(pos, pos + dec_str(v as nat).len())[0] == s[pos]);
        assert(is_digit(s[pos]));
        assert(s[pos] != '-');
        lemma_eat_u64_exact(s, pos, v as u64);
    } else {
        let mag = (-(v as int)) as u64;
        lemma_dec_str_props(mag as nat);
        let text = spec_i64_text(v as int);
        assert(s.subrange(pos, pos + text.len())[0] == s[pos]);
        assert(s[pos] == '-');
        assert(pos < s.len());
        assert(s.subrange(pos + 1, pos + 1 + dec_str(mag as nat).len()) =~= dec_str(
            mag as nat,
        )) by {
            assert forall|j: int| 0 <= j < dec_str(mag as nat).len() implies s.subrange(
                pos + 1,
                pos + 1 + dec_str(mag as nat).len(),
            )[j] == dec_str(mag as nat)[j] by {
                assert(s.subrange(pos, pos + text.len())[1 + j] == s[pos + 1 + j]);
                assert(text[1 + j] == dec_str(mag as nat)[j]);
            }
        }
        lemma_eat_u64_exact(s, pos + 1, mag);
        assert(mag <= 0x8000000000000000u64);
        assert((0 - mag as int) as i64 == v);
    }
}

/// The serialized word for an output format.
pub open spec fn fmt_word(f: Format) -> Seq<char> {
    match f {
        Format::Waybar => "waybar"@,
        Format::Plain => "plain"@,
        Format::I3statusRs => "i3status-rs"@,
    }
}

/// Returns the serialized word for an output format.
pub fn fmt_text(f: Format) -> (r: &'static str)
    ensures
        r@ == fmt_word(f),
{
    match f {
        Format::Waybar => "waybar",
        Format::Plain => "plain",
        Format::I3statusRs => "i3status-rs",
    }
}

/// What scanning for a format word at `pos` yields.
pub open spec fn spec_eat_fmt(s: Seq<char>, pos: int) -> Option<(Format, int)> {
    if matches_at(s, pos, "waybar"@) {
        Some((Format::Waybar, pos + "waybar"@.len()))
    } else if matches_at(s, pos, "plain"@) {
        Some((Format::Plain, pos + "plain"@.len()))
    } else if matches_at(s, pos, "i3status-rs"@) {
        Some((Format::I3statusRs, pos + "i3status-rs"@.len()))
    } else {
        None
    }
}

/// Scans a format word.
pub fn eat_fmt(s: &str, pos: usize) -> (r: Option<(Format, usize)>)
    requires
        pos <= s@.len(),
    ensures
        match spec_eat_fmt(s@, pos as int) {
            Some((f, q)) => r == Some((f, q as usize)) && pos <= q <= s@.len(),
            None => r is None,
        },
{
    if let Some(q) = eat_lit(s, pos, "waybar") {
        Some((Format::Waybar, q))
    } else if let Some(q) = eat_lit(s, pos, "plain") {
        Some((Format::Plain, q))
    } else if let Some(q) = eat_lit(s, pos, "i3status-rs") {
        Some((Format::I3statusRs, q))
    } else {
        None
    }
}

/// A rendered format word is scanned back as exactly that format.
pub proof fn lemma_eat_fmt_exact(s: Seq<char>, pos: int, f: Format)
    requires
        matches_at(s, pos, fmt_word(f)),
    ensures
        spec_eat_fmt(s, pos) == Some((f, pos + fmt_word(f).len())),
{
    reveal_strlit("waybar");
    reveal_strlit("plain");
    reveal_strlit("i3status-rs");
    match f {
        Format::Waybar => {
        },
        Format::Plain => {
            if matches_at(s, pos, "waybar"@) {
                assert(s.subrange(pos, pos + "waybar"@.len())[0] == s[pos]);
                assert(s.subrange(pos, pos + "plain"@.len())[0] == s[pos]);
                assert(false);
            }
        },
        Format::I3statusRs => {
            if matches_at(s, pos, "waybar"@) {
                assert(s.subrange(pos, pos + "waybar"@.len())[0] == s[pos]);
                assert(s.subrange(pos, pos + "i3status-rs"@.len())[0] == s[pos]);
                assert(false);
            }
            if matches_at(s, pos, "plain"@) {
                assert(s.subrange(pos, pos + "plain"@.len())[0] == s[pos]);
                assert(s.subrange(pos, pos + "i3status-rs"@.len())[0] == s[pos]);
                assert(false);
            }
        },
    }
}

/// The `k`-th piece of a `start` request.
pub open spec fn start_seg(
    w: i64,
    b: i64,
    l: i64,
    sess: i64,
    m: AutoAdvance,
    k: int,
) -> Seq<char> {
    if k == 0 {
        "{\"command\":\"start\",\"args\":{\"work_seconds\":"@
    } else if k == 1 {
        spec_i64_text(w as int)
    } else if k == 2 {
        ",\"break_seconds\":"@
    } else if k == 3 {
        spec_i64_text(b as int)
    } else if k == 4 {
        ",\"long_break_seconds\":"@
    } else if k == 5 {
        spec_i64_text(l as int)
    } else if k == 6 {
        ",\"sessions\":"@
    } else if k == 7 {
        spec_i64_text(sess as int)
    } else if k == 8 {
        ",\"auto_advance\":\""@
    } else if k == 9 {
        mode_word(m)
    } else {
        "\"}}"@
    }
}

/// The `k`-th piece of a `status` request.
pub open spec fn status_seg(f: Format, k: int) -> Seq<char> {
    if k == 0 {
        "{\"command\":\"status\",\"args\":{\"output\":\""@
    } else if k == 1 {
        fmt_word(f)
    } else {
        "\"}}"@
    }
}

/// The canonical request line for a command, without the trailing newline.
pub open spec fn spec_render_request(cmd: Command) -> Seq<char> {
    match cmd {
        Command::Start { work_seconds, break_seconds, long_break_seconds, sessions, auto_advance }
            => cat_from(
            Seq::new(
                11,
                |k: int|
                    start_seg(
                        work_seconds,
                        break_seconds,
                        long_break_seconds,
                        sessions,
                        auto_advance,
                        k,
                    ),
            ),
            0,
        ),
        Command::Status { format } => cat_from(Seq::new(3, |k: int| status_seg(format, k)), 0),
        Command::Stop => "{\"command\":\"stop\",\"args\":null}"@,
        Command::Skip => "{\"command\":\"skip\",\"args\":null}"@,
        Command::Pause => "{\"command\":\"pause\",\"args\":null}"@,
        Command::Resume => "{\"command\":\"resume\",\"args\":null}"@,
        Command::Toggle => "{\"command\":\"toggle\",\"args\":null}"@,
        Command::Shutdown => "{\"command\":\"shutdown\",\"args\":null}"@,
    }
}

/// Returns the `k`-th piece of a `start` request.
fn start_seg_text(w: i64, b: i64, l: i64, sess: i64, m: AutoAdvance, k: usize) -> (r: String)
    requires
        k < 11,
    ensures
        r@ == start_seg(w, b, l, sess, m, k as int),
{
    if k == 0 {
        String::from_str("{\"command\":\"start\",\"args\":{\"work_seconds\":")
    } else if k == 1 {
        i64_to_string(w)
    } else if k == 2 {
        String::from_str(",\"break_seconds\":")
    } else if k == 3 {
        i64_to_string(b)
    } else if k == 4 {
        String::from_str(",\"long_break_seconds\":")
    } else if k == 5 {
        i64_to_string(l)
    } else if k == 6 {
        String::from_str(",\"sessions\":")
    } else if k == 7 {
        i64_to_string(sess)
    } else if k == 8 {
        String::from_str(",\"auto_advance\":\"")
    } else if k == 9 {
        String::from_str(mode_text(m))
    } else {
        String::from_str("\"}}")
    }
}

/// Renders the pieces of a `start` request from index `k` on.
fn build_start_from(w: i64, b: i64, l: i64, sess: i64, m: AutoAdvance, k: usize) -> (r: String)
    requires
        k <= 11,
    ensures
        r@ == cat_from(
            Seq::new(11, |j: int| start_seg(w, b, l, sess, m, j)),
            k as int,
        ),
    decreases 11 - k,
{
    if k == 11 {
        String::new()
    } else {
        let head = start_seg_text(w, b, l, sess, m, k);
        head.concat(build_start_from(w, b, l, sess, m, k + 1).as_str())
    }
}

/// Builds the canonical request line for a command, without the trailing
/// newline.
pub fn build_request(cmd: &Command) -> (r: String)
    ensures
        r@ == spec_render_request(*cmd),
{
    match cmd {
        Command::Start {
            work_seconds,
            break_seconds,
            long_break_seconds,
            sessions,
            auto_advance,
        } => build_start_from(
            *work_seconds,
            *break_seconds,
            *long_break_seconds,
            *sessions,
            *auto_advance,
            0,
        ),
        Command::Status { format } => {
            let ghost segs = Seq::new(3, |k: int| status_seg(*format, k));
            let mut s = String::from_str("{\"command\":\"status\",\"args\":{\"output\":\"");
            s.append(fmt_text(*format));
            s.append("\"}}");
            proof {
                assert(cat_from(segs, 3) =~= Seq::<char>::empty());
                assert(cat_from(segs, 2) =~= status_seg(*format, 2));
                assert(cat_from(segs, 1) =~= status_seg(*format, 1) + cat_from(segs, 2));
                assert(cat_from(segs, 0) =~= status_seg(*format, 0) + cat_from(segs, 1));
                assert(s@ =~= cat_from(segs, 0));
            }
            s
        },
        Command::Stop => String::from_str("{\"command\":\"stop\",\"args\":null}"),
        Command::Skip => String::from_str("{\"command\":\"skip\",\"args\":null}"),
        Command::Pause => String::from_str("{\"command\":\"pause\",\"args\":null}"),
        Command::Resume => String::from_str("{\"command\":\"resume\",\"args\":null}"),
        Command::Toggle => String::from_str("{\"command\":\"toggle\",\"args\":null}"),
        Command::Shutdown => String::from_str("{\"command\":\"shutdown\",\"args\":null}"),
    }
}

/// Scanning a rendered request pins every branch the parser tries: the
/// head literal of the command's own shape matches, every other command's
/// head literal does not, and the argument pieces follow at their positions
/// through the end of the line.
#[verifier::rlimit(100)]
#[verifier::spinoff_prover]
pub proof fn lemma_request_parse_path(s: Seq<char>, cmd: Command)
    requires
        s == spec_render_request(cmd),
    ensures
        spec_eat_lit(s, 0, "{\"command\":\"start\",\"args\":{\"work_seconds\":"@) == (
        match cmd {
            Command::Start { .. } => Some(
                "{\"command\":\"start\",\"args\":{\"work_seconds\":"@.len() as int,
            ),
            _ => None::<int>,
        }),
        spec_eat_lit(s, 0, "{\"command\":\"status\",\"args\":{\"output\":\""@) == (
        match cmd {
            Command::Status { .. } => Some(
                "{\"command\":\"status\",\"args\":{\"output\":\""@.len() as int,
            ),
            _ => None::<int>,
        }),
        spec_eat_lit(s, 0, "{\"command\":\"stop\",\"args\":null}"@) == (match cmd {
            Command::Stop => Some("{\"command\":\"stop\",\"args\":null}"@.len() as int),
            _ => None::<int>,
        }),
        spec_eat_lit(s, 0, "{\"command\":\"skip\",\"args\":null}"@) == (match cmd {
            Command::Skip => Some("{\"command\":\"skip\",\"args\":null}"@.len() as int),
            _ => None::<int>,
        }),
        spec_eat_lit(s, 0, "{\"command\":\"pause\",\"args\":null}"@) == (match cmd {
            Command::Pause => Some("{\"command\":\"pause\",\"args\":null}"@.len() as int),
            _ => None::<int>,
        }),
        spec_eat_lit(s, 0, "{\"command\":\"resume\",\"args\":null}"@) == (match cmd {
            Command::Resume => Some("{\"command\":\"resume\",\"args\":null}"@.len() as int),
            _ => None::<int>,
        }),
        spec_eat_lit(s, 0, "{\"command\":\"toggle\",\"args\":null}"@) == (match cmd {
            Command::Toggle => Some("{\"command\":\"toggle\",\"args\":null}"@.len() as int),
            _ => None::<int>,
        }),
        spec_eat_lit(s, 0, "{\"command\":\"shutdown\",\"args\":null}"@) == (match cmd {
            Command::Shutdown => Some("{\"command\":\"shutdown\",\"args\":null}"@.len() as int),
            _ => None::<int>,
        }),
        match cmd {
            Command::Start {
                work_seconds,
                break_seconds,
                long_break_seconds,
                sessions,
                auto_advance,
            } => ({
                let p1 = "{\"command\":\"start\",\"args\":{\"work_seconds\":"@.len() as int;
                let p2 = p1 + spec_i64_text(work_seconds as int).len();
                let p3 = p2 + ",\"break_seconds\":"@.len();
                let p4 = p3 + spec_i64_text(break_seconds as int).len();
                let p5 = p4 + ",\"long_break_seconds\":"@.len();
                let p6 = p5 + spec_i64_text(long_break_seconds as int).len();
                let p7 = p6 + ",\"sessions\":"@.len();
                let p8 = p7 + spec_i64_text(sessions as int).len();
                let p9 = p8 + ",\"auto_advance\":\""@.len();
                let p10 = p9 + mode_word(auto_advance).len();
                let p11 = p10 + "\"}}"@.len();
                &&& spec_eat_i64(s, p1) == Some((work_seconds, p2))
                &&& spec_eat_lit(s, p2, ",\"break_seconds\":"@) == Some(p3)
                &&& spec_eat_i64(s, p3) == Some((break_seconds, p4))
                &&& spec_eat_lit(s, p4, ",\"long_break_seconds\":"@) == Some(p5)
                &&& spec_eat_i64(s, p5) == Some((long_break_seconds, p6))
                &&& spec_eat_lit(s, p6, ",\"sessions\":"@) == Some(p7)
                &&& spec_eat_i64(s, p7) == Some((sessions, p8))
                &&& spec_eat_lit(s, p8, ",\"auto_advance\":\""@) == Some(p9)
                &&& spec_eat_mode(s, p9) == Some((auto_advance, p10))
                &&& spec_eat_lit(s, p10, "\"}}"@) == Some(p11)
                &&& p11 == s.len()
            }),
            Command::Status { format } => ({
                let p1 = "{\"command\":\"status\",\"args\":{\"output\":\""@.len() as int;
                let p2 = p1 + fmt_word(format).len();
                let p3 = p2 + "\"}}"@.len();
                &&& spec_eat_fmt(s, p1) == Some((format, p2))
                &&& spec_eat_lit(s, p2, "\"}}"@) == Some(p3)
                &&& p3 == s.len()
            }),
            Command::Stop => s.len() == "{\"command\":\"stop\",\"args\":null}"@.len(),
            Command::Skip => s.len() == "{\"command\":\"skip\",\"args\":null}"@.len(),
            Command::Pause => s.len() == "{\"command\":\"pause\",\"args\":null}"@.len(),
            Command::Resume => s.len() == "{\"command\":\"resume\",\"args\":null}"@.len(),
            Command::Toggle => s.len() == "{\"command\":\"toggle\",\"args\":null}"@.len(),
            Command::Shutdown => s.len() == "{\"command\":\"shutdown\",\"args\":null}"@.len(),
        },
{
    reveal_strlit("{\"command\":\"start\",\"args\":{\"work_seconds\":");
    reveal_strlit("{\"command\":\"status\",\"args\":{\"output\":\"");
    reveal_strlit("{\"command\":\"stop\",\"args\":null}");
    reveal_strlit("{\"command\":\"skip\",\"args\":null}");
    reveal_strlit("{\"command\":\"pause\",\"args\":null}");
    reveal_strlit("{\"command\":\"resume\",\"args\":null}");
    reveal_strlit("{\"command\":\"toggle\",\"args\":null}");
    reveal_strlit("{\"command\":\"shutdown\",\"args\":null}");
    match cmd {
        Command::Start {
            work_seconds: w,
            break_seconds: b,
            long_break_seconds: l,
            sessions: sess,
            auto_advance: m,
        } => {
            let segs = Seq::new(11, |k: int| start_seg(w, b, l, sess, m, k));
            assert forall|k: int| 0 <= k < 11 implies segs[k] == start_seg(w, b, l, sess, m, k)
                by {}
            let p1 = "{\"command\":\"start\",\"args\":{\"work_seconds\":"@.len() as int;
            let p2 = p1 + spec_i64_text(w as int).len();
            let p3 = p2 + ",\"break_seconds\":"@.len();
            let p4 = p3 + spec_i64_text(b as int).len();
            let p5 = p4 + ",\"long_break_seconds\":"@.len();
            let p6 = p5 + spec_i64_text(l as int).len();
            let p7 = p6 + ",\"sessions\":"@.len();
            let p8 = p7 + spec_i64_text(sess as int).len();
            let p9 = p8 + ",\"auto_advance\":\""@.len();
            let p10 = p9 + mode_word(m).len();
            let p11 = p10 + "\"}}"@.len();
            assert(pos_of(segs, 0) == 0);
            assert(pos_of(segs, 1) == p1);
            assert(pos_of(segs, 2) == p2);
            assert(pos_of(segs, 3) == p3);
            assert(pos_of(segs, 4) == p4);
            assert(pos_of(segs, 5) == p5);
            assert(pos_of(segs, 6) == p6);
            assert(pos_of(segs, 7) == p7);
            assert(pos_of(segs, 8) == p8);
            assert(pos_of(segs, 9) == p9);
            assert(pos_of(segs, 10) == p10);
            assert(pos_of(segs, 11) == p11);
            lemma_cat_from_len(segs, 0);
            assert(s.len() == p11);
            lemma_cat_matches(segs, 0);
            lemma_cat_matches(segs, 1);
            lemma_cat_matches(segs, 2);
            lemma_cat_matches(segs, 3);
            lemma_cat_matches(segs, 4);
            lemma_cat_matches(segs, 5);
            lemma_cat_matches(segs, 6);
            lemma_cat_matches(segs, 7);
            lemma_cat_matches(segs, 8);
            lemma_cat_matches(segs, 9);
            lemma_cat_matches(segs, 10);
            reveal_strlit(",\"break_seconds\":");
            reveal_strlit(",\"long_break_seconds\":");
            reveal_strlit(",\"sessions\":");
            reveal_strlit(",\"auto_advance\":\"");
            assert(s.subrange(p2, p3)[0] == s[p2]);
            assert(!is_digit(s[p2]));
            lemma_eat_i64_exact(s, p1, w);
            assert(s.subrange(p4, p5)[0] == s[p4]);
            assert(!is_digit(s[p4]));
            lemma_eat_i64_exact(s, p3, b);
            assert(s.subrange(p6, p7)[0] == s[p6]);
            assert(!is_digit(s[p6]));
            lemma_eat_i64_exact(s, p5, l);
            assert(s.subrange(p8, p9)[0] == s[p8]);
            assert(!is_digit(s[p8]));
            lemma_eat_i64_exact(s, p7, sess);
            lemma_eat_mode_exact(s, p9, m);
            assert(s.subrange(0, p1)[0] == s[0]);
            assert(s.subrange(0, p1)[12] == s[12]);
            assert(s.subrange(0, p1)[13] == s[13]);
            assert(s.subrange(0, p1)[14] == s[14]);
            assert(s.subrange(0, p1)[15] == s[15]);
            if matches_at(s, 0, "{\"command\":\"status\",\"args\":{\"output\":\""@) {
                assert(s.subrange(
                    0,
                    "{\"command\":\"status\",\"args\":{\"output\":\""@.len() as int,
                )[15] == s[15]);
                assert(false);
            }
            if matches_at(s, 0, "{\"command\":\"stop\",\"args\":null}"@) {
                assert(s.subrange(0, "{\"command\":\"stop\",\"args\":null}"@.len() as int)[14]
                    == s[14]);
                assert(false);
            }
            if matches_at(s, 0, "{\"command\":\"skip\",\"args\":null}"@) {
                assert(s.subrange(0, "{\"command\":\"skip\",\"args\":null}"@.len() as int)[13]
                    == s[13]);
                assert(false);
            }
            if matches_at(s, 0, "{\"command\":\"pause\",\"args\":null}"@) {
                assert(s.subrange(0, "{\"command\":\"pause\",\"args\":null}"@.len() as int)[12]
                    == s[12]);
                assert(false);
            }
            if matches_at(s, 0, "{\"command\":\"resume\",\"args\":null}"@) {
                assert(s.subrange(0, "{\"command\":\"resume\",\"args\":null}"@.len() as int)[12]
                    == s[12]);
                assert(false);
            }
            if matches_at(s, 0, "{\"command\":\"toggle\",\"args\":null}"@) {
                assert(s.subrange(0, "{\"command\":\"toggle\",\"args\":null}"@.len() as int)[12]
                    == s[12]);
                assert(false);
            }
            if matches_at(s, 0, "{\"command\":\"shutdown\",\"args\":null}"@) {
                assert(s.subrange(0, "{\"command\":\"shutdown\",\"args\":null}"@.len() as int)[13]
                    == s[13]);
                assert(false);
            }
        },
        Command::Status { format } => {
            let segs = Seq::new(3, |k: int| status_seg(format, k));
            assert forall|k: int| 0 <= k < 3 implies segs[k] == status_seg(format, k) by {}
            let p1 = "{\"command\":\"status\",\"args\":{\"output\":\""@.len() as int;
            let p2 = p1 + fmt_word(format).len();
            let p3 = p2 + "\"}}"@.len();
            assert(pos_of(segs, 0) == 0);
            assert(pos_of(segs, 1) == p1);
            assert(pos_of(segs, 2) == p2);
            assert(pos_of(segs, 3) == p3);
            lemma_cat_from_len(segs, 0);
            assert(s.len() == p3);
            lemma_cat_matches(segs, 0);
            lemma_cat_matches(segs, 1);
            lemma_cat_matches(segs, 2);
            lemma_eat_fmt_exact(s, p1, format);
            assert(s.subrange(0, p1)[12] == s[12]);
            assert(s.subrange(0, p1)[13] == s[13]);
            assert(s.subrange(0, p1)[14] == s[14]);
            assert(s.subrange(0, p1)[15] == s[15]);
            if matches_at(s, 0, "{\"command\":\"start\",\"args\":{\"work_seconds\":"@) {
                assert(s.subrange(
                    0,
                    "{\"command\":\"start\",\"args\":{\"work_seconds\":"@.len() as int,
                )[15] == s[15]);
                assert(false);
            }
            if matches_at(s, 0, "{\"command\":\"stop\",\"args\":null}"@) {
                assert(s.subrange(0, "{\"command\":\"stop\",\"args\":null}"@.len() as int)[14]
                    == s[14]);
                assert(false);
            }
            if matches_at(s, 0, "{\"command\":\"skip\",\"args\":null}"@) {
                assert(s.subrange(0, "{\"command\":\"skip\",\"args\":null}"@.len() as int)[13]
                    == s[13]);
                assert(false);
            }
            if matches_at(s, 0, "{\"command\":\"pause\",\"args\":null}"@) {
                assert(s.subrange(0, "{\"command\":\"pause\",\"args\":null}"@.len() as int)[12]
                    == s[12]);
                assert(false);
            }
            if matches_at(s, 0, "{\"command\":\"resume\",\"args\":null}"@) {
                assert(s.subrange(0, "{\"command\":\"resume\",\"args\":null}"@.len() as int)[12]
                    == s[12]);
                assert(false);
            }
            if matches_at(s, 0, "{\"command\":\"toggle\",\"args\":null}"@) {
                assert(s.subrange(0, "{\"command\":\"toggle\",\"args\":null}"@.len() as int)[12]
                    == s[12]);
                assert(false);
            }
            if matches_at(s, 0, "{\"command\":\"shutdown\",\"args\":null}"@) {
                assert(s.subrange(0, "{\"command\":\"shutdown\",\"args\":null}"@.len() as int)[13]
                    == s[13]);
                assert(false);
            }
        },
        _ => {
            lemma_request_plain_branches(s, cmd);
        },
    }
}

/// The branch facts for the commands whose requests are a single literal.
proof fn lemma_request_plain_branches(s: Seq<char>, cmd: Command)
    requires
        s == spec_render_request(cmd),
        !(cmd matches Command::Start { .. }),
        !(cmd matches Command::Status { .. }),
    ensures
        spec_eat_lit(s, 0, "{\"command\":\"start\",\"args\":{\"work_seconds\":"@) is None,
        spec_eat_lit(s, 0, "{\"command\":\"status\",\"args\":{\"output\":\""@) is None,
        spec_eat_lit(s, 0, "{\"command\":\"stop\",\"args\":null}"@) == (match cmd {
            Command::Stop => Some("{\"command\":\"stop\",\"args\":null}"@.len() as int),
            _ => None::<int>,
        }),
        spec_eat_lit(s, 0, "{\"command\":\"skip\",\"args\":null}"@) == (match cmd {
            Command::Skip => Some("{\"command\":\"skip\",\"args\":null}"@.len() as int),
            _ => None::<int>,
        }),
        spec_eat_lit(s, 0, "{\"command\":\"pause\",\"args\":null}"@) == (match cmd {
            Command::Pause => Some("{\"command\":\"pause\",\"args\":null}"@.len() as int),
            _ => None::<int>,
        }),
        spec_eat_lit(s, 0, "{\"command\":\"resume\",\"args\":null}"@) == (match cmd {
            Command::Resume => Some("{\"command\":\"resume\",\"args\":null}"@.len() as int),
            _ => None::<int>,
        }),
        spec_eat_lit(s, 0, "{\"command\":\"toggle\",\"args\":null}"@) == (match cmd {
            Command::Toggle => Some("{\"command\":\"toggle\",\"args\":null}"@.len() as int),
            _ => None::<int>,
        }),
        spec_eat_lit(s, 0, "{\"command\":\"shutdown\",\"args\":null}"@) == (match cmd {
            Command::Shutdown => Some("{\"command\":\"shutdown\",\"args\":null}"@.len() as int),
            _ => None::<int>,
        }),
{
    reveal_strlit("{\"command\":\"start\",\"args\":{\"work_seconds\":");
    reveal_strlit("{\"command\":\"status\",\"args\":{\"output\":\"");
    reveal_strlit("{\"command\":\"stop\",\"args\":null}");
    reveal_strlit("{\"command\":\"skip\",\"args\":null}");
    reveal_strlit("{\"command\":\"pause\",\"args\":null}");
    reveal_strlit("{\"command\":\"resume\",\"args\":null}");
    reveal_strlit("{\"command\":\"toggle\",\"args\":null}");
    reveal_strlit("{\"command\":\"shutdown\",\"args\":null}");
    assert(s.subrange(0, s.len() as int) =~= s);
    if matches_at(s, 0, "{\"command\":\"stop\",\"args\":null}"@) {
        assert(s.subrange(0, "{\"command\":\"stop\",\"args\":null}"@.len() as int)[12] == s[12]);
        assert(s.subrange(0, "{\"command\":\"stop\",\"args\":null}"@.len() as int)[13] == s[13]);
        assert(s.subrange(0, "{\"command\":\"stop\",\"args\":null}"@.len() as int)[14] == s[14]);
    }
    if matches_at(s, 0, "{\"command\":\"skip\",\"args\":null}"@) {
        assert(s.subrange(0, "{\"command\":\"skip\",\"args\":null}"@.len() as int)[12] == s[12]);
        assert(s.subrange(0, "{\"command\":\"skip\",\"args\":null}"@.len() as int)[13] == s[13]);
    }
    if matches_at(s, 0, "{\"command\":\"pause\",\"args\":null}"@) {
        assert(s.subrange(0, "{\"command\":\"pause\",\"args\":null}"@.len() as int)[12] == s[12]);
    }
    if matches_at(s, 0, "{\"command\":\"resume\",\"args\":null}"@) {
        assert(s.subrange(0, "{\"command\":\"resume\",\"args\":null}"@.len() as int)[12] == s[12]);
    }
    if matches_at(s, 0, "{\"command\":\"toggle\",\"args\":null}"@) {
        assert(s.subrange(0, "{\"command\":\"toggle\",\"args\":null}"@.len() as int)[12] == s[12]);
        assert(s.subrange(0, "{\"command\":\"toggle\",\"args\":null}"@.len() as int)[13] == s[13]);
    }
    if matches_at(s, 0, "{\"command\":\"shutdown\",\"args\":null}"@) {
        assert(s.subrange(0, "{\"command\":\"shutdown\",\"args\":null}"@.len() as int)[12]
            == s[12]);
        assert(s.subrange(0, "{\"command\":\"shutdown\",\"args\":null}"@.len() as int)[13]
            == s[13]);
    }
}

/// Scans the arguments of a `start` request, from right after the head
/// literal through the end of the line.
#[verifier::rlimit(100)]
#[verifier::spinoff_prover]
fn parse_start_rest(s: &str, pos: usize) -> (r: Option<Command>)
    requires
        pos <= s@.len(),
    ensures
        forall|cmd: Command|
            s@ == #[trigger] spec_render_request(cmd) && (cmd matches Command::Start { .. }) && pos
                as int == "{\"command\":\"start\",\"args\":{\"work_seconds\":"@.len() ==> r
                == Some(cmd),
{
    let len = s.unicode_len();
    let t_w = eat_i64(s, pos);
    let q2 = match t_w {
        Some((_, p)) => eat_lit(s, p, ",\"break_seconds\":"),
        None => None,
    };
    let t_b = match q2 {
        Some(p) => eat_i64(s, p),
        None => None,
    };
    let q4 = match t_b {
        Some((_, p)) => eat_lit(s, p, ",\"long_break_seconds\":"),
        None => None,
    };
    let t_l = match q4 {
        Some(p) => eat_i64(s, p),
        None => None,
    };
    let q6 = match t_l {
        Some((_, p)) => eat_lit(s, p, ",\"sessions\":"),
        None => None,
    };
    let t_sess = match q6 {
        Some(p) => eat_i64(s, p),
        None => None,
    };
    let q8 = match t_sess {
        Some((_, p)) => eat_lit(s, p, ",\"auto_advance\":\""),
        None => None,
    };
    let t_mode = match q8 {
        Some(p) => eat_mode(s, p),
        None => None,
    };
    let q10 = match t_mode {
        Some((_, p)) => eat_lit(s, p, "\"}}"),
        None => None,
    };
    match (t_w, t_b, t_l, t_sess, t_mode, q10) {
        (
            Some((work_seconds, _)),
            Some((break_seconds, _)),
            Some((long_break_seconds, _)),
            Some((sessions, _)),
            Some((auto_advance, _)),
            Some(p10),
        ) => {
            if p10 == len {
                let out = Command::Start {
                    work_seconds,
                    break_seconds,
                    long_break_seconds,
                    sessions,
                    auto_advance,
                };
                proof {
                    assert forall|cmd: Command|
                        s@ == #[trigger] spec_render_request(cmd) && (cmd matches Command::Start { .. }) && pos as int
                            == "{\"command\":\"start\",\"args\":{\"work_seconds\":"@.len() implies Some(
                        out,
                    ) == Some(cmd) by {
                        lemma_request_parse_path(s@, cmd);
                    }
                }
                Some(out)
            } else {
                proof {
                    assert forall|cmd: Command|
                        s@ == #[trigger] spec_render_request(cmd) && (cmd matches Command::Start { .. }) && pos as int
                            == "{\"command\":\"start\",\"args\":{\"work_seconds\":"@.len() implies false by {
                        lemma_request_parse_path(s@, cmd);
                    }
                }
                None
            }
        },
        _ => {
            proof {
                assert forall|cmd: Command|
                    s@ == #[trigger] spec_render_request(cmd) && (cmd matches Command::Start { .. })
                        && pos as int
                        == "{\"command\":\"start\",\"args\":{\"work_seconds\":"@.len() implies false by {
                    lemma_request_parse_path(s@, cmd);
                }
            }
            None
        },
    }
}

/// Scans the arguments of a `status` request, from right after the head
/// literal through the end of the line.
fn parse_status_rest(s: &str, pos: usize) -> (r: Option<Command>)
    requires
        pos <= s@.len(),
    ensures
        forall|cmd: Command|
            s@ == #[trigger] spec_render_request(cmd) && (cmd matches Command::Status { .. }) && pos
                as int == "{\"command\":\"status\",\"args\":{\"output\":\""@.len() ==> r == Some(
                cmd,
            ),
{
    let len = s.unicode_len();
    let t_fmt = eat_fmt(s, pos);
    let q2 = match t_fmt {
        Some((_, p)) => eat_lit(s, p, "\"}}"),
        None => None,
    };
    match (t_fmt, q2) {
        (Some((format, _)), Some(p2)) => {
            if p2 == len {
                let out = Command::Status { format };
                proof {
                    assert forall|cmd: Command|
                        s@ == #[trigger] spec_render_request(cmd) && (cmd matches Command::Status { .. }) && pos as int
                            == "{\"command\":\"status\",\"args\":{\"output\":\""@.len() implies Some(
                        out,
                    ) == Some(cmd) by {
                        lemma_request_parse_path(s@, cmd);
                    }
                }
                Some(out)
            } else {
                proof {
                    assert forall|cmd: Command|
                        s@ == #[trigger] spec_render_request(cmd) && (cmd matches Command::Status { .. }) && pos as int
                            == "{\"command\":\"status\",\"args\":{\"output\":\""@.len() implies false by {
                        lemma_request_parse_path(s@, cmd);
                    }
                }
                None
            }
        },
        _ => {
            proof {
                assert forall|cmd: Command|
                    s@ == #[trigger] spec_render_request(cmd) && (cmd matches Command::Status { .. })
                        && pos as int
                        == "{\"command\":\"status\",\"args\":{\"output\":\""@.len() implies false by {
                    lemma_request_parse_path(s@, cmd);
                }
            }
            None
        },
    }
}

/// Reads one request line (without its newline) back into a command.
/// Anything else yields `None`, which the daemon answers as an unknown
/// command. A line `build_request` produced yields exactly the command it
/// was built from — the round trip is the contract's second clause.
#[verifier::rlimit(100)]
#[verifier::spinoff_prover]
pub fn parse_request(s: &str) -> (r: Option<Command>)
    ensures
        forall|cmd: Command| s@ == #[trigger] spec_render_request(cmd) ==> r == Some(cmd),
{
    let len = s.unicode_len();
    if let Some(p) = eat_lit(s, 0, "{\"command\":\"start\",\"args\":{\"work_seconds\":") {
        let r = parse_start_rest(s, p);
        proof {
            assert forall|cmd: Command|
                s@ == #[trigger] spec_render_request(cmd) implies r == Some(cmd) by {
                lemma_request_parse_path(s@, cmd);
            }
        }
        return r;
    }
    if let Some(p) = eat_lit(s, 0, "{\"command\":\"status\",\"args\":{\"output\":\"") {
        let r = parse_status_rest(s, p);
        proof {
            assert forall|cmd: Command|
                s@ == #[trigger] spec_render_request(cmd) implies r == Some(cmd) by {
                lemma_request_parse_path(s@, cmd);
            }
        }
        return r;
    }
    let r = if let Some(p) = eat_lit(s, 0, "{\"command\":\"stop\",\"args\":null}") {
        if p == len {
            Some(Command::Stop)
        } else {
            None
        }
    } else if let Some(p) = eat_lit(s, 0, "{\"command\":\"skip\",\"args\":null}") {
        if p == len {
            Some(Command::Skip)
        } else {
            None
        }
    } else if let Some(p) = eat_lit(s, 0, "{\"command\":\"pause\",\"args\":null}") {
        if p == len {
            Some(Command::Pause)
        } else {
            None
        }
    } else if let Some(p) = eat_lit(s, 0, "{\"command\":\"resume\",\"args\":null}") {
        if p == len {
            Some(Command::Resume)
        } else {
            None
        }
    } else if let Some(p) = eat_lit(s, 0, "{\"command\":\"toggle\",\"args\":null}") {
        if p == len {
            Some(Command::Toggle)
        } else {
            None
        }
    } else if let Some(p) = eat_lit(s, 0, "{\"command\":\"shutdown\",\"args\":null}") {
        if p == len {
            Some(Command::Shutdown)
        } else {
            None
        }
    } else {
        None
    };
    proof {
        assert forall|cmd: Command|
            s@ == #[trigger] spec_render_request(cmd) implies r == Some(cmd) by {
            lemma_request_parse_path(s@, cmd);
        }
    }
    r
}

} // verus!
