//! Message timestamps and the session watermark.
//!
//! A wire timestamp is the decimal string `secs.frac`: seconds since the
//! epoch, a dot, and one to nine digits counting nanoseconds within the
//! second. Parsing and rendering are exact inverses of each other up to the
//! zero-padding of the fractional part, which is always written with nine
//! digits. The watermark is the timestamp of the most recently processed
//! message, or unset; it only ever moves forward.

use vstd::prelude::*;

use crate::strings::{dec_str, digit_char, padded_dec};
use crate::strings::{padded_u64, u64_dec};

verus! {

#[derive(Clone, Copy, Debug, PartialEq, Eq, Structural)]
pub struct Timestamp {
    pub secs: u64,
    pub nanos: u32,
}

impl Timestamp {
    /// The fractional part counts nanoseconds within one second.
    pub open spec fn wf(self) -> bool {
        self.nanos <= 999_999_999
    }
}

pub open spec fn ts_le(a: Timestamp, b: Timestamp) -> bool {
    a.secs < b.secs || (a.secs == b.secs && a.nanos <= b.nanos)
}

pub open spec fn ts_lt(a: Timestamp, b: Timestamp) -> bool {
    a.secs < b.secs || (a.secs == b.secs && a.nanos < b.nanos)
}

/// Chronological strict comparison.
pub fn ts_before(a: &Timestamp, b: &Timestamp) -> (r: bool)
    ensures
        r == ts_lt(*a, *b),
{
    a.secs < b.secs || (a.secs == b.secs && a.nanos < b.nanos)
}

pub open spec fn is_digit(c: char) -> bool {
    c == '0' || c == '1' || c == '2' || c == '3' || c == '4' || c == '5' || c == '6' || c == '7'
        || c == '8' || c == '9'
}

/// The value of the digit character `c`.
pub open spec fn digit_val(c: char) -> nat {
    if c == '0' { 0 } else if c == '1' { 1 } else if c == '2' { 2 } else if c == '3' { 3 }
    else if c == '4' { 4 } else if c == '5' { 5 } else if c == '6' { 6 } else if c == '7' { 7 }
    else if c == '8' { 8 } else { 9 }
}

pub open spec fn all_digits(s: Seq<char>) -> bool {
    forall|i: int| 0 <= i < s.len() ==> is_digit(s[i])
}

/// The numeric value of a digit string, most significant digit first.
pub open spec fn dec_val(s: Seq<char>) -> nat
    decreases s.len(),
{
    if s.len() == 0 {
        0
    } else {
        dec_val(s.drop_last()) * 10 + digit_val(s.last())
    }
}

/// The position of the first `.` in `s` at or after `i`, or `-1`.
pub open spec fn dot_idx(s: Seq<char>, i: int) -> int
    decreases s.len() - i,
{
    if i < 0 || i >= s.len() {
        -1
    } else if s[i] == '.' {
        i
    } else {
        dot_idx(s, i + 1)
    }
}

/// The timestamp a wire string denotes: digits, a dot, then one to nine
/// digits of nanoseconds, with the seconds fitting a `u64`. Anything else
/// denotes no timestamp.
pub open spec fn spec_parse_ts(s: Seq<char>) -> Option<Timestamp> {
    let d = dot_idx(s, 0);
    if d < 0 {
        None
    } else {
        let sec = s.subrange(0, d);
        let frac = s.subrange(d + 1, s.len() as int);
        if sec.len() >= 1 && all_digits(sec) && dec_val(sec) <= u64::MAX && 1 <= frac.len() <= 9
            && all_digits(frac) {
            Some(Timestamp { secs: dec_val(sec) as u64, nanos: dec_val(frac) as u32 })
        } else {
            None
        }
    }
}

proof fn lemma_dot_idx_at(s: Seq<char>, i: int, d: int)
    requires
        0 <= i <= d < s.len(),
        s[d] == '.',
        forall|j: int| i <= j < d ==> s[j] != '.',
    ensures
        dot_idx(s, i) == d,
    decreases d - i,
{
    if i < d {
        lemma_dot_idx_at(s, i + 1, d);
    }
}

proof fn lemma_dot_idx_none(s: Seq<char>, i: int)
    requires
        0 <= i,
        forall|j: int| i <= j < s.len() ==> s[j] != '.',
    ensures
        dot_idx(s, i) == -1,
    decreases s.len() - i,
{
    if i < s.len() {
        lemma_dot_idx_none(s, i + 1);
    }
}

/// Appending digits never shrinks the value of a digit string.
proof fn lemma_dec_val_prefix(s: Seq<char>, k: int)
    requires
        0 <= k <= s.len(),
    ensures
        dec_val(s.take(k)) <= dec_val(s),
    decreases s.len() - k,
{
    if k < s.len() {
        lemma_dec_val_prefix(s, k + 1);
        assert(s.take(k + 1).drop_last() =~= s.take(k));
        assert(dec_val(s.take(k)) <= dec_val(s.take(k + 1)));
    } else {
        assert(s.take(k) =~= s);
    }
}

pub open spec fn pow10(n: nat) -> nat
    decreases n,
{
    if n == 0 {
        1
    } else {
        10 * pow10((n - 1) as nat)
    }
}

/// A digit string of length `n` has a value under `pow10(n)`.
proof fn lemma_dec_val_bound(s: Seq<char>)
    ensures
        dec_val(s) < pow10(s.len()),
    decreases s.len(),
{
    if s.len() > 0 {
        lemma_dec_val_bound(s.drop_last());
    }
}

/// A digit string of at most nine digits counts at most the nanoseconds of
/// one second.
proof fn lemma_nine_digits_bound(s: Seq<char>)
    requires
        s.len() <= 9,
    ensures
        dec_val(s) <= 999_999_999,
{
    lemma_dec_val_bound(s);
    assert(pow10(0) == 1);
    assert(pow10(1) == 10);
    assert(pow10(2) == 100);
    assert(pow10(3) == 1000);
    assert(pow10(4) == 10000);
    assert(pow10(5) == 100000);
    assert(pow10(6) == 1000000);
    assert(pow10(7) == 10000000);
    assert(pow10(8) == 100000000);
    assert(pow10(9) == 1000000000);
    assert(pow10(1) <= pow10(2) <= pow10(3) <= pow10(4) <= pow10(5) <= pow10(6) <= pow10(7)
        <= pow10(8) <= pow10(9));
    assert(pow10(s.len()) <= pow10(9));
}

fn digit_value_of(c: char) -> (r: Option<u64>)
    ensures
        match r {
            Some(v) => is_digit(c) && v == digit_val(c),
            None => !is_digit(c),
        },
{
    if c == '0' { Some(0) } else if c == '1' { Some(1) } else if c == '2' { Some(2) }
    else if c == '3' { Some(3) } else if c == '4' { Some(4) } else if c == '5' { Some(5) }
    else if c == '6' { Some(6) } else if c == '7' { Some(7) } else if c == '8' { Some(8) }
    else if c == '9' { Some(9) } else { None }
}

/// Reads the digit run `s[from..to]` as a number, or reports that it is not
/// entirely digits or does not fit a `u64`.
fn dec_u64(s: &str, from: usize, to: usize) -> (r: Option<u64>)
    requires
        from <= to <= s@.len(),
    ensures
        match r {
            Some(v) => all_digits(s@.subrange(from as int, to as int)) && v == dec_val(
                s@.subrange(from as int, to as int),
            ),
            None => !(all_digits(s@.subrange(from as int, to as int)) && dec_val(
                s@.subrange(from as int, to as int),
            ) <= u64::MAX),
        },
{
    let ghost whole = s@.subrange(from as int, to as int);
    let mut v: u64 = 0;
    let mut j: usize = from;
    proof {
        assert(s@.subrange(from as int, from as int) =~= whole.take(0));
    }
    while j < to
        invariant
            from <= j <= to <= s@.len(),
            whole == s@.subrange(from as int, to as int),
            all_digits(whole.take(j - from)),
            v == dec_val(whole.take(j - from)),
        decreases to - j,
    {
        let c = s.get_char(j);
        proof {
            assert(whole[j - from] == s@[j as int]);
        }
        match digit_value_of(c) {
            None => {
                proof {
                    assert(!is_digit(whole[j - from]));
                }
                return None;
            },
            Some(dv) => {
                proof {
                    assert(whole.take(j - from + 1).drop_last() =~= whole.take(j - from));
                    assert(whole.take(j - from + 1).last() == whole[j - from]);
                }
                if v > (u64::MAX - dv) / 10 {
                    proof {
                        assert(dec_val(whole.take(j - from + 1)) > u64::MAX);
                        lemma_dec_val_prefix(whole, j - from + 1);
                    }
                    return None;
                }
                v = v * 10 + dv;
            },
        }
        j += 1;
    }
    proof {
        assert(whole.take(to - from) =~= whole);
    }
    Some(v)
}

/// Parses a wire timestamp. Exactly the strings `spec_parse_ts` accepts give
/// `Some`; every other string gives `None`.
pub fn parse_timestamp(s: &str) -> (r: Option<Timestamp>)
    ensures
        r == spec_parse_ts(s@),
        r is Some ==> r.unwrap().wf(),
{
    let n = s.unicode_len();
    let mut i: usize = 0;
    while i < n && s.get_char(i) != '.'
        invariant
            n == s@.len(),
            i <= n,
            forall|j: int| 0 <= j < i ==> s@[j] != '.',
        decreases n - i,
    {
        i += 1;
    }
    if i == n {
        proof {
            lemma_dot_idx_none(s@, 0);
        }
        return None;
    }
    proof {
        lemma_dot_idx_at(s@, 0, i as int);
    }
    let ghost sec = s@.subrange(0, i as int);
    let ghost frac = s@.subrange(i as int + 1, n as int);
    if i == 0 {
        return None;
    }
    let fl = n - i - 1;
    if fl < 1 || fl > 9 {
        return None;
    }
    let secs = match dec_u64(s, 0, i) {
        None => {
            return None;
        },
        Some(v) => v,
    };
    let nanos64 = match dec_u64(s, i + 1, n) {
        None => {
            proof {
                lemma_nine_digits_bound(frac);
            }
            return None;
        },
        Some(v) => v,
    };
    proof {
        lemma_nine_digits_bound(frac);
    }
    Some(Timestamp { secs, nanos: nanos64 as u32 })
}

/// The wire rendering of a timestamp: the seconds in decimal, a dot, and the
/// nanoseconds zero-padded to nine digits.
pub open spec fn ts_str(t: Timestamp) -> Seq<char> {
    dec_str(t.secs as nat) + seq!['.'] + padded_dec(t.nanos as nat, 9)
}

pub fn timestamp_string(t: &Timestamp) -> (r: String)
    ensures
        r@ == ts_str(*t),
{
    proof {
        reveal_strlit(".");
        assert("."@ =~= seq!['.']);
    }
    let mut r = u64_dec(t.secs);
    r.append(".");
    r.append(padded_u64(t.nanos as u64, 9).as_str());
    r
}

/// The decimal rendering of `n` holds at least one character, digits alone,
/// and denotes `n` itself.
proof fn lemma_dec_str_val(n: nat)
    ensures
        all_digits(dec_str(n)),
        dec_str(n).len() >= 1,
        dec_val(dec_str(n)) == n,
    decreases n,
{
    if n < 10 {
        let s = dec_str(n);
        assert(s.drop_last() =~= Seq::<char>::empty());
        assert(dec_val(Seq::<char>::empty()) == 0);
        assert(s.last() == digit_char(n));
        assert(digit_val(digit_char(n)) == n);
    } else {
        lemma_dec_str_val(n / 10);
        let head = dec_str(n / 10);
        let s = dec_str(n);
        assert(s.drop_last() =~= head);
        assert(s.last() == digit_char(n % 10));
        assert(digit_val(digit_char(n % 10)) == n % 10);
        assert(dec_val(s) == (n / 10) * 10 + n % 10);
        assert forall|i: int| 0 <= i < s.len() implies is_digit(s[i]) by {
            if i < s.len() - 1 {
                assert(s[i] == head[i]);
            } else {
                assert(s[i] == digit_char(n % 10));
            }
        }
    }
}

/// The zero-padded rendering of `n` under `pow10(width)` holds exactly
/// `width` digits and denotes `n`.
proof fn lemma_padded_val(n: nat, width: nat)
    requires
        n < pow10(width),
    ensures
        all_digits(padded_dec(n, width)),
        padded_dec(n, width).len() == width,
        dec_val(padded_dec(n, width)) == n,
    decreases width,
{
    if width == 0 {
        assert(n == 0);
    } else {
        assert(pow10(width) == 10 * pow10((width - 1) as nat));
        assert(n / 10 < pow10((width - 1) as nat));
        lemma_padded_val(n / 10, (width - 1) as nat);
        let head = padded_dec(n / 10, (width - 1) as nat);
        let s = padded_dec(n, width);
        assert(s.drop_last() =~= head);
        assert(s.last() == digit_char(n % 10));
        assert(digit_val(digit_char(n % 10)) == n % 10);
        assert(dec_val(s) == (n / 10) * 10 + n % 10);
        assert forall|i: int| 0 <= i < s.len() implies is_digit(s[i]) by {
            if i < s.len() - 1 {
                assert(s[i] == head[i]);
            } else {
                assert(s[i] == digit_char(n % 10));
            }
        }
    }
}

/// Parsing the rendering of a well-formed timestamp gives the timestamp
/// back: the watermark recorded after processing is exactly the lower bound
/// the next catch-up request carries.
pub proof fn lemma_ts_round_trip(t: Timestamp)
    requires
        t.wf(),
    ensures
        spec_parse_ts(ts_str(t)) == Some(t),
{
    let sec = dec_str(t.secs as nat);
    let frac = padded_dec(t.nanos as nat, 9);
    let s = ts_str(t);
    lemma_dec_str_val(t.secs as nat);
    assert(pow10(0) == 1);
    assert(pow10(1) == 10);
    assert(pow10(2) == 100);
    assert(pow10(3) == 1000);
    assert(pow10(4) == 10000);
    assert(pow10(5) == 100000);
    assert(pow10(6) == 1000000);
    assert(pow10(7) == 10000000);
    assert(pow10(8) == 100000000);
    assert(pow10(9) == 1000000000);
    lemma_padded_val(t.nanos as nat, 9);
    let d = sec.len() as int;
    assert(s.len() == sec.len() + 1 + 9);
    assert forall|j: int| 0 <= j < d implies s[j] != '.' by {
        assert(s[j] == sec[j]);
        assert(is_digit(sec[j]));
    }
    assert(s[d] == '.');
    lemma_dot_idx_at(s, 0, d);
    assert(s.subrange(0, d) =~= sec);
    assert(s.subrange(d + 1, s.len() as int) =~= frac);
    assert(dec_val(sec) <= u64::MAX);
    assert(spec_parse_ts(s) == Some(
        Timestamp { secs: dec_val(sec) as u64, nanos: dec_val(frac) as u32 },
    ));
}

/// The watermark after seeing an event carrying `t`: it moves forward to `t`
/// when `t` is later than the current value, and stays put otherwise.
pub open spec fn wm_update(w: Option<Timestamp>, t: Option<Timestamp>) -> Option<Timestamp> {
    match t {
        None => w,
        Some(x) => match w {
            None => Some(x),
            Some(sx) => if ts_lt(sx, x) {
                Some(x)
            } else {
                Some(sx)
            },
        },
    }
}

/// The watermark after a whole sequence of updates, oldest first.
pub open spec fn wm_fold(w: Option<Timestamp>, ts: Seq<Option<Timestamp>>) -> Option<Timestamp>
    decreases ts.len(),
{
    if ts.len() == 0 {
        w
    } else {
        wm_fold(wm_update(w, ts[0]), ts.drop_first())
    }
}

/// Order on watermarks: unset precedes everything.
pub open spec fn wm_le(a: Option<Timestamp>, b: Option<Timestamp>) -> bool {
    match a {
        None => true,
        Some(x) => match b {
            None => false,
            Some(y) => ts_le(x, y),
        },
    }
}

pub open spec fn all_some(ts: Seq<Timestamp>) -> Seq<Option<Timestamp>> {
    ts.map_values(|t: Timestamp| Some(t))
}

/// One update never regresses the watermark.
pub proof fn lemma_watermark_monotone(w: Option<Timestamp>, t: Option<Timestamp>)
    ensures
        wm_le(w, wm_update(w, t)),
{
}

/// No sequence of updates regresses the watermark.
pub proof fn lemma_watermark_fold_monotone(w: Option<Timestamp>, ts: Seq<Option<Timestamp>>)
    ensures
        wm_le(w, wm_fold(w, ts)),
    decreases ts.len(),
{
    if ts.len() > 0 {
        lemma_watermark_fold_monotone(wm_update(w, ts[0]), ts.drop_first());
    }
}

/// Processing events in non-decreasing timestamp order, starting at or behind
/// the first of them, leaves the watermark exactly at the timestamp of the
/// last event of the sequence.
pub proof fn lemma_watermark_tracks_last(w: Option<Timestamp>, ts: Seq<Timestamp>)
    requires
        ts.len() > 0,
        forall|i: int, j: int| 0 <= i <= j < ts.len() ==> ts_le(ts[i], ts[j]),
        wm_le(w, Some(ts[0])),
    ensures
        wm_fold(w, all_some(ts)) == Some(ts.last()),
    decreases ts.len(),
{
    let w1 = wm_update(w, Some(ts[0]));
    assert(w1 == Some(ts[0]));
    assert(all_some(ts)[0] == Some(ts[0]));
    assert(all_some(ts).drop_first() =~= all_some(ts.drop_first()));
    if ts.len() == 1 {
        assert(all_some(ts).drop_first().len() == 0);
    } else {
        lemma_watermark_tracks_last(w1, ts.drop_first());
        assert(ts.drop_first().last() == ts.last());
    }
}

/// Replaying the missed events, oldest first, leaves the watermark at the
/// newest of them; the next catch-up request, strictly newer than the
/// watermark, can therefore fetch none of them again.
pub proof fn lemma_replay_advances_watermark(w: Timestamp, missed: Seq<Timestamp>)
    requires
        missed.len() > 0,
        forall|i: int, j: int| 0 <= i <= j < missed.len() ==> ts_le(missed[i], missed[j]),
        forall|i: int| 0 <= i < missed.len() ==> ts_lt(w, #[trigger] missed[i]),
    ensures
        wm_fold(Some(w), all_some(missed)) == Some(missed.last()),
        forall|i: int| 0 <= i < missed.len() ==> !ts_lt(missed.last(), #[trigger] missed[i]),
{
    lemma_watermark_tracks_last(Some(w), missed);
    assert forall|i: int| 0 <= i < missed.len() implies !ts_lt(missed.last(), missed[i]) by {
        assert(ts_le(missed[i], missed[missed.len() - 1]));
    }
}

/// Catch-up fetches exactly the events strictly newer than the watermark, so
/// nothing processed before the disconnect is replayed, nothing replayed is
/// seen again live, and replay followed by live listening sees timestamps in
/// non-decreasing order.
pub proof fn lemma_catch_up_exactly_once(
    w: Timestamp,
    before: Seq<Timestamp>,
    missed: Seq<Timestamp>,
    live: Seq<Timestamp>,
)
    requires
        forall|i: int| 0 <= i < before.len() ==> ts_le(#[trigger] before[i], w),
        forall|i: int| 0 <= i < missed.len() ==> ts_lt(w, #[trigger] missed[i]),
        forall|i: int, j: int| 0 <= i <= j < missed.len() ==> ts_le(missed[i], missed[j]),
        forall|i: int, j: int| 0 <= i <= j < live.len() ==> ts_le(live[i], live[j]),
        forall|i: int, j: int|
            0 <= i < missed.len() && 0 <= j < live.len() ==> ts_lt(
                #[trigger] missed[i],
                #[trigger] live[j],
            ),
    ensures
        forall|i: int, j: int|
            0 <= i <= j < (missed + live).len() ==> ts_le(#[trigger] (missed + live)[i], #[trigger] (missed + live)[j]),
        forall|i: int, j: int|
            0 <= i < before.len() && 0 <= j < missed.len() ==> #[trigger] before[i]
                != #[trigger] missed[j],
        forall|i: int, j: int|
            0 <= i < missed.len() && 0 <= j < live.len() ==> #[trigger] missed[i]
                != #[trigger] live[j],
{
    assert forall|i: int, j: int| 0 <= i <= j < (missed + live).len() implies ts_le(
        (missed + live)[i],
        (missed + live)[j],
    ) by {
        if j < missed.len() {
            assert(ts_le(missed[i], missed[j]));
        } else if i >= missed.len() {
            assert(ts_le(live[i - missed.len()], live[j - missed.len()]));
        } else {
            assert(ts_lt(missed[i], live[j - missed.len()]));
        }
    }
}

} // verus!
