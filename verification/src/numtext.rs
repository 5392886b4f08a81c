//! Decimal text: rendering a `u64` as its decimal digits and scanning
//! literals and digit runs out of a string. The state file and the wire
//! protocol are both built from these pieces, and their round trips rest on
//! the lemmas here.

use vstd::prelude::*;

verus! {

/// A decimal digit character.
pub open spec fn is_digit(c: char) -> bool {
    48 <= c as u32 <= 57
}

/// The numeric value of a digit character.
pub open spec fn digit_val(c: char) -> int {
    c as u32 - 48
}

/// The character for a digit value.
pub open spec fn digit_char(d: int) -> char {
    if d == 0 {
        '0'
    } else if d == 1 {
        '1'
    } else if d == 2 {
        '2'
    } else if d == 3 {
        '3'
    } else if d == 4 {
        '4'
    } else if d == 5 {
        '5'
    } else if d == 6 {
        '6'
    } else if d == 7 {
        '7'
    } else if d == 8 {
        '8'
    } else {
        '9'
    }
}

/// Every character of `s` is a decimal digit.
pub open spec fn all_digits(s: Seq<char>) -> bool {
    forall|i: int| 0 <= i < s.len() ==> is_digit(#[trigger] s[i])
}

/// The value of a digit string, read most significant first.
pub open spec fn dec_val(s: Seq<char>) -> int
    decreases s.len(),
{
    if s.len() == 0 {
        0
    } else {
        dec_val(s.drop_last()) * 10 + digit_val(s.last())
    }
}

/// The canonical decimal rendering of `n`: no leading zeros except for the
/// single digit `0` itself.
pub open spec fn dec_str(n: nat) -> Seq<char>
    decreases n,
{
    if n < 10 {
        seq![digit_char(n as int)]
    } else {
        dec_str(n / 10).push(digit_char((n % 10) as int))
    }
}

/// Rendering a digit and reading it back is the identity.
pub proof fn lemma_digit_char_val(d: int)
    requires
        0 <= d <= 9,
    ensures
        is_digit(digit_char(d)),
        digit_val(digit_char(d)) == d,
{
}

/// A digit string has a non-negative value.
pub proof fn lemma_dec_val_nonneg(s: Seq<char>)
    requires
        all_digits(s),
    ensures
        dec_val(s) >= 0,
    decreases s.len(),
{
    if s.len() > 0 {
        lemma_dec_val_nonneg(s.drop_last());
    }
}

/// The canonical rendering of `n` is a nonempty digit string whose value is
/// `n` itself.
pub proof fn lemma_dec_str_props(n: nat)
    ensures
        dec_str(n).len() >= 1,
        all_digits(dec_str(n)),
        dec_val(dec_str(n)) == n,
    decreases n,
{
    if n < 10 {
        lemma_digit_char_val(n as int);
        assert(dec_str(n).drop_last() =~= Seq::<char>::empty());
        assert(dec_str(n).last() == digit_char(n as int));
        assert(dec_val(dec_str(n)) == dec_val(Seq::<char>::empty()) * 10 + digit_val(
            digit_char(n as int),
        ));
    } else {
        lemma_dec_str_props(n / 10);
        lemma_digit_char_val((n % 10) as int);
        assert(dec_str(n).drop_last() =~= dec_str(n / 10));
        assert(dec_str(n).last() == digit_char((n % 10) as int));
        assert(dec_val(dec_str(n)) == dec_val(dec_str(n / 10)) * 10 + digit_val(
            digit_char((n % 10) as int),
        ));
        assert(n == (n / 10) * 10 + n % 10);
    }
}

/// The value of a prefix of a digit string never exceeds the whole value.
pub proof fn lemma_dec_val_take_le(s: Seq<char>, j: int)
    requires
        all_digits(s),
        0 <= j <= s.len(),
    ensures
        0 <= dec_val(s.take(j)) <= dec_val(s),
    decreases s.len() - j,
{
    assert(all_digits(s.take(j)));
    lemma_dec_val_nonneg(s.take(j));
    if j == s.len() {
        assert(s.take(j) =~= s);
    } else {
        assert(s.take(j + 1).drop_last() =~= s.take(j));
        assert(dec_val(s.take(j + 1)) == dec_val(s.take(j)) * 10 + digit_val(s[j]));
        lemma_dec_val_take_le(s, j + 1);
    }
}

/// Where the run of digits starting at `pos` ends: the first position at or
/// after `pos` that is past the end or holds a non-digit.
pub open spec fn digit_run_end(s: Seq<char>, pos: int) -> int
    decreases s.len() - pos,
{
    if pos < 0 || pos >= s.len() || !is_digit(s[pos]) {
        pos
    } else {
        digit_run_end(s, pos + 1)
    }
}

/// The digit run is a digit string and ends at the end of `s` or at a
/// non-digit.
pub proof fn lemma_digit_run_end_props(s: Seq<char>, pos: int)
    requires
        0 <= pos <= s.len(),
    ensures
        pos <= digit_run_end(s, pos) <= s.len(),
        forall|j: int| pos <= j < digit_run_end(s, pos) ==> is_digit(#[trigger] s[j]),
        digit_run_end(s, pos) == s.len() || !is_digit(s[digit_run_end(s, pos)]),
    decreases s.len() - pos,
{
    if pos < s.len() && is_digit(s[pos]) {
        lemma_digit_run_end_props(s, pos + 1);
    }
}

/// A stretch of digits followed by the end or a non-digit is exactly the
/// digit run.
pub proof fn lemma_digit_run_end_exact(s: Seq<char>, pos: int, end: int)
    requires
        0 <= pos <= end <= s.len(),
        forall|j: int| pos <= j < end ==> is_digit(#[trigger] s[j]),
        end == s.len() || !is_digit(s[end]),
    ensures
        digit_run_end(s, pos) == end,
    decreases end - pos,
{
    if pos < end {
        lemma_digit_run_end_exact(s, pos + 1, end);
    }
}

/// `lit` occurs in `s` at position `pos`.
pub open spec fn matches_at(s: Seq<char>, pos: int, lit: Seq<char>) -> bool {
    &&& 0 <= pos
    &&& pos + lit.len() <= s.len()
    &&& s.subrange(pos, pos + lit.len()) == lit
}

/// What scanning for the literal `lit` at `pos` yields: the position after it
/// on a match, nothing otherwise.
pub open spec fn spec_eat_lit(s: Seq<char>, pos: int, lit: Seq<char>) -> Option<int> {
    if matches_at(s, pos, lit) {
        Some(pos + lit.len())
    } else {
        None
    }
}

/// A rendered number followed by a non-digit is scanned back as exactly that
/// number.
pub proof fn lemma_eat_u64_exact(s: Seq<char>, pos: int, v: u64)
    requires
        matches_at(s, pos, dec_str(v as nat)),
        pos + dec_str(v as nat).len() == s.len() || !is_digit(
            s[pos + dec_str(v as nat).len()],
        ),
    ensures
        spec_eat_u64(s, pos) == Some((v, pos + dec_str(v as nat).len())),
{
    lemma_dec_str_props(v as nat);
    let end = pos + dec_str(v as nat).len();
    assert forall|j: int| pos <= j < end implies is_digit(#[trigger] s[j]) by {
        assert(s.subrange(pos, end)[j - pos] == s[j]);
    }
    lemma_digit_run_end_exact(s, pos, end);
    assert(s.subrange(pos, end) == dec_str(v as nat));
}

/// What scanning for a decimal number at `pos` yields: the value and end of
/// the digit run, or nothing when there is no digit at `pos` or the run's
/// value does not fit in a `u64`.
pub open spec fn spec_eat_u64(s: Seq<char>, pos: int) -> Option<(u64, int)> {
    let end = digit_run_end(s, pos);
    if end == pos {
        None
    } else if dec_val(s.subrange(pos, end)) > u64::MAX {
        None
    } else {
        Some((dec_val(s.subrange(pos, end)) as u64, end))
    }
}

/// The concatenation of the segments of `segs` from index `i` on.
pub open spec fn cat_from(segs: Seq<Seq<char>>, i: int) -> Seq<char>
    decreases segs.len() - i,
{
    if i < 0 || i >= segs.len() {
        Seq::empty()
    } else {
        segs[i] + cat_from(segs, i + 1)
    }
}

/// The position at which segment `k` begins inside the concatenation of all
/// segments: the sum of the lengths of the segments before it.
pub open spec fn pos_of(segs: Seq<Seq<char>>, k: int) -> int
    decreases k,
{
    if k <= 0 {
        0
    } else {
        pos_of(segs, k - 1) + segs[k - 1].len()
    }
}

/// The length of a tail concatenation is the sum of its segments' lengths.
pub proof fn lemma_cat_from_len(segs: Seq<Seq<char>>, i: int)
    requires
        0 <= i <= segs.len(),
    ensures
        cat_from(segs, i).len() == pos_of(segs, segs.len() as int) - pos_of(segs, i),
    decreases segs.len() - i,
{
    if i < segs.len() {
        lemma_cat_from_len(segs, i + 1);
    }
}

/// Each segment occurs in the tail concatenation at its position.
pub proof fn lemma_cat_matches_from(segs: Seq<Seq<char>>, i: int, k: int)
    requires
        0 <= i <= k < segs.len(),
    ensures
        matches_at(cat_from(segs, i), pos_of(segs, k) - pos_of(segs, i), segs[k]),
    decreases k - i,
{
    lemma_cat_from_len(segs, i);
    if k == i {
        lemma_cat_from_len(segs, i + 1);
        assert(cat_from(segs, i).subrange(0, segs[i].len() as int) =~= segs[i]);
    } else {
        lemma_cat_matches_from(segs, i + 1, k);
        let tail = cat_from(segs, i + 1);
        let q = pos_of(segs, k) - pos_of(segs, i + 1);
        let off = segs[i].len() as int;
        assert(cat_from(segs, i).subrange(off + q, off + q + segs[k].len()) =~= segs[k]) by {
            assert forall|j: int| 0 <= j < segs[k].len() implies cat_from(segs, i)[off + q + j]
                == segs[k][j] by {
                assert(cat_from(segs, i)[off + q + j] == tail[q + j]);
                assert(tail.subrange(q, q + segs[k].len())[j] == tail[q + j]);
            }
        }
    }
}

/// Each segment occurs in the full concatenation at its position.
pub proof fn lemma_cat_matches(segs: Seq<Seq<char>>, k: int)
    requires
        0 <= k < segs.len(),
    ensures
        matches_at(cat_from(segs, 0), pos_of(segs, k), segs[k]),
{
    lemma_cat_matches_from(segs, 0, k);
}

/// Returns the one-character string for a digit value.
pub fn digit_text(d: u64) -> (r: &'static str)
    requires
        d <= 9,
    ensures
        r@ == seq![digit_char(d as int)],
{
    proof {
        reveal_strlit("0");
        reveal_strlit("1");
        reveal_strlit("2");
        reveal_strlit("3");
        reveal_strlit("4");
        reveal_strlit("5");
        reveal_strlit("6");
        reveal_strlit("7");
        reveal_strlit("8");
        reveal_strlit("9");
    }
    let r: &'static str = if d == 0 {
        "0"
    } else if d == 1 {
        "1"
    } else if d == 2 {
        "2"
    } else if d == 3 {
        "3"
    } else if d == 4 {
        "4"
    } else if d == 5 {
        "5"
    } else if d == 6 {
        "6"
    } else if d == 7 {
        "7"
    } else if d == 8 {
        "8"
    } else {
        "9"
    };
    proof {
        assert(r@ =~= seq![digit_char(d as int)]);
    }
    r
}

/// Renders `n` in decimal.
pub fn u64_to_string(n: u64) -> (s: String)
    ensures
        s@ == dec_str(n as nat),
    decreases n,
{
    if n < 10 {
        digit_text(n).to_owned()
    } else {
        let mut s = u64_to_string(n / 10);
        s.append(digit_text(n % 10));
        proof {
            assert(s@ =~= dec_str(n as nat));
        }
        s
    }
}

/// Scans the literal `lit` at position `pos` of `s`.
pub fn eat_lit(s: &str, pos: usize, lit: &str) -> (r: Option<usize>)
    requires
        pos <= s@.len(),
    ensures
        match spec_eat_lit(s@, pos as int, lit@) {
            Some(p) => r == Some(p as usize) && pos <= p <= s@.len(),
            None => r is None,
        },
{
    let n = lit.unicode_len();
    let total = s.unicode_len();
    if n > total - pos {
        proof {
            assert(!matches_at(s@, pos as int, lit@));
        }
        return None;
    }
    let mut i: usize = 0;
    while i < n
        invariant
            0 <= i <= n,
            pos + n <= s@.len(),
            s@.len() <= usize::MAX,
            n == lit@.len(),
            forall|j: int| 0 <= j < i ==> s@[pos + j] == lit@[j],
        decreases n - i,
    {
        let c1 = s.get_char(pos + i);
        let c2 = lit.get_char(i);
        if c1 != c2 {
            proof {
                assert(s@.subrange(pos as int, pos + lit@.len()) != lit@) by {
                    assert(s@.subrange(pos as int, pos + lit@.len())[i as int] == s@[pos + i]);
                }
            }
            return None;
        }
        i += 1;
    }
    proof {
        assert(s@.subrange(pos as int, pos + lit@.len()) =~= lit@);
    }
    Some(pos + n)
}

/// True when position `i` of `s` holds a decimal digit.
fn digit_at(s: &str, i: usize) -> (b: bool)
    requires
        i <= s@.len(),
    ensures
        b == (i < s@.len() && is_digit(s@[i as int])),
{
    if i < s.unicode_len() {
        let u = s.get_char(i) as u32;
        48 <= u && u <= 57
    } else {
        false
    }
}

/// Scans a decimal number at position `pos` of `s`.
pub fn eat_u64(s: &str, pos: usize) -> (r: Option<(u64, usize)>)
    requires
        pos <= s@.len(),
    ensures
        match spec_eat_u64(s@, pos as int) {
            Some((v, p)) => r == Some((v, p as usize)) && pos < p <= s@.len(),
            None => r is None,
        },
{
    let total = s.unicode_len();
    proof {
        lemma_digit_run_end_props(s@, pos as int);
    }
    let ghost end = digit_run_end(s@, pos as int);
    let mut i: usize = pos;
    let mut acc: u64 = 0;
    while digit_at(s, i)
        invariant
            pos <= i <= end <= s@.len(),
            total == s@.len(),
            i < end ==> is_digit(s@[i as int]),
            acc == dec_val(s@.subrange(pos as int, i as int)),
            end == digit_run_end(s@, pos as int),
            forall|j: int| pos <= j < end ==> is_digit(#[trigger] s@[j]),
            end == s@.len() || !is_digit(s@[end]),
        decreases s@.len() - i,
    {
        proof {
            if i == end {
                assert(is_digit(s@[i as int]));
                assert(false);
            }
        }
        let c = s.get_char(i);
        let d: u64 = (c as u32 - 48) as u64;
        proof {
            assert(d == digit_val(s@[i as int]));
            assert(0 <= d <= 9);
        }
        if acc > (u64::MAX - d) / 10 {
            // The run's value exceeds `u64`: by prefix monotonicity the whole
            // run does too, so the scan yields nothing.
            proof {
                let q = ((u64::MAX - d) / 10) as int;
                assert((u64::MAX - d) as int == 10 * q + ((u64::MAX - d) as int % 10));
                assert(s@.subrange(pos as int, i + 1).drop_last() =~= s@.subrange(
                    pos as int,
                    i as int,
                ));
                assert(dec_val(s@.subrange(pos as int, i + 1)) == acc * 10 + d);
                let run = s@.subrange(pos as int, end);
                assert(all_digits(run));
                assert(run.take(i + 1 - pos) =~= s@.subrange(pos as int, i + 1));
                lemma_dec_val_take_le(run, i + 1 - pos);
                assert(dec_val(run) > u64::MAX);
            }
            return None;
        }
        proof {
            let q = ((u64::MAX - d) / 10) as int;
            assert((u64::MAX - d) as int == 10 * q + ((u64::MAX - d) as int % 10));
            assert(acc * 10 + d <= u64::MAX);
            assert(s@.subrange(pos as int, i + 1).drop_last() =~= s@.subrange(
                pos as int,
                i as int,
            ));
        }
        acc = acc * 10 + d;
        i += 1;
        proof {
            if i < end {
                assert(is_digit(s@[i as int]));
            }
        }
    }
    proof {
        if i < end {
            assert(is_digit(s@[i as int]));
            assert(i < s@.len());
            assert(false);
        }
        assert(i == end);
    }
    if i == pos {
        None
    } else {
        proof {
            assert(dec_val(s@.subrange(pos as int, end)) == acc);
        }
        Some((acc, i))
    }
}

} // verus!
