//! A signed span of time with nanosecond precision, as the socket options
//! take it.

use vstd::prelude::*;
use crate::format::{
    decimal_digits, digits_value, lemma_padded_digits_read_back, padded_digits, pow10, push_digits,
    push_padded,
};

verus! {

pub const NANOS_PER_MICRO: i128 = 1000;
pub const NANOS_PER_MILLI: i128 = 1_000_000;
pub const NANOS_PER_SEC: i128 = 1_000_000_000;
pub const SECS_PER_DAY: i128 = 86_400;

/// A signed span of time, counted in nanoseconds. Negative spans are
/// allowed: nanomsg reads a negative timeout as "no timeout". Its whole
/// milliseconds always fit an `i64`.
#[derive(Debug, Clone, Copy, PartialEq, Eq)]
pub struct Duration {
    nanos: i128,
}

impl View for Duration {
    type V = int;

    /// The span in nanoseconds.
    closed spec fn view(&self) -> int {
        self.nanos as int
    }
}

/// `n` divided by `d`, rounded toward zero.
pub open spec fn div_toward_zero(n: int, d: int) -> int {
    if n < 0 {
        -((-n) / d)
    } else {
        n / d
    }
}

/// The whole milliseconds of a span of `ns` nanoseconds, rounded toward
/// zero.
pub open spec fn whole_millis(ns: int) -> int {
    div_toward_zero(ns, NANOS_PER_MILLI as int)
}

/// Whole milliseconds round toward zero: they are the milliseconds that
/// a span of `ns` nanoseconds reaches without passing it, on its own side
/// of zero, and a span of whole milliseconds gives exactly them back.
pub proof fn lemma_whole_millis_rounds_toward_zero(ns: int, ms: int)
    ensures
        ns >= 0 ==> 0 <= whole_millis(ns) * 1_000_000 <= ns < whole_millis(ns) * 1_000_000 + 1_000_000,
        ns < 0 ==> whole_millis(ns) * 1_000_000 - 1_000_000 < ns <= whole_millis(ns) * 1_000_000 <= 0,
        whole_millis(ms * 1_000_000) == ms,
{
}

/// The fraction of a second after the point: nothing for whole seconds,
/// else three digits of whole milliseconds, six of whole microseconds, or
/// nine of nanoseconds.
pub open spec fn fraction_text(nanos: int) -> Seq<char> {
    if nanos == 0 {
        Seq::<char>::empty()
    } else if nanos % (NANOS_PER_MILLI as int) == 0 {
        seq!['.'] + padded_digits((nanos / (NANOS_PER_MILLI as int)) as nat, 3)
    } else if nanos % (NANOS_PER_MICRO as int) == 0 {
        seq!['.'] + padded_digits((nanos / (NANOS_PER_MICRO as int)) as nat, 6)
    } else {
        seq!['.'] + padded_digits(nanos as nat, 9)
    }
}

/// The ISO 8601 text of a span of `ns` nanoseconds: an optional minus
/// sign, `P`, the whole days followed by `D` when there are any, then `T`,
/// the seconds within the day, the fraction of a second, and `S`. The time
/// part is left out only for a whole number of days.
pub open spec fn iso_duration_text(ns: int) -> Seq<char> {
    let a = if ns < 0 { -ns } else { ns };
    let secs = a / (NANOS_PER_SEC as int);
    let nanos = a % (NANOS_PER_SEC as int);
    let days = secs / (SECS_PER_DAY as int);
    let day_secs = secs % (SECS_PER_DAY as int);
    let sign = if ns < 0 { seq!['-'] } else { Seq::<char>::empty() };
    let date = if days != 0 { decimal_digits(days as nat).push('D') } else { Seq::<char>::empty() };
    let time = if day_secs != 0 || nanos != 0 || days == 0 {
        seq!['T'] + decimal_digits(day_secs as nat) + fraction_text(nanos) + seq!['S']
    } else {
        Seq::<char>::empty()
    };
    sign + seq!['P'] + date + time
}

/// Appends the time part: `T`, the seconds, the fraction and `S`.
fn push_time(s: &mut String, secs: i128, nanos: i128)
    requires
        0 <= secs < SECS_PER_DAY,
        0 <= nanos < NANOS_PER_SEC,
    ensures
        final(s)@ == old(s)@ + seq!['T'] + decimal_digits(secs as nat) + fraction_text(nanos as int)
            + seq!['S'],
{
    proof { reveal_strlit("T"); }
    s.append("T");
    push_digits(s, secs as u64);
    if nanos != 0 {
        proof { reveal_strlit("."); }
        s.append(".");
        if nanos % NANOS_PER_MILLI == 0 {
            push_padded(s, (nanos / NANOS_PER_MILLI) as u64, 3);
        } else if nanos % NANOS_PER_MICRO == 0 {
            push_padded(s, (nanos / NANOS_PER_MICRO) as u64, 6);
        } else {
            push_padded(s, nanos as u64, 9);
        }
    }
    proof { reveal_strlit("S"); }
    s.append("S");
    assert(final(s)@ =~= old(s)@ + seq!['T'] + decimal_digits(secs as nat) + fraction_text(
        nanos as int,
    ) + seq!['S']);
}

/// The fraction of a second reads back as the nanoseconds: nothing for a
/// whole second, else a point and three, six or nine digits which, scaled
/// to nine places, are the nanoseconds.
pub proof fn lemma_fraction_reads_back(nanos: int)
    requires
        0 <= nanos < 1_000_000_000,
    ensures
        nanos == 0 ==> fraction_text(nanos).len() == 0,
        nanos != 0 ==> {
            let f = fraction_text(nanos);
            &&& f.len() == 4 || f.len() == 7 || f.len() == 10
            &&& f[0] == '.'
            &&& digits_value(f.skip(1)) * pow10((10 - f.len()) as nat) == nanos
        },
{
    reveal_with_fuel(pow10, 10);
    if nanos != 0 {
        let f = fraction_text(nanos);
        if nanos % 1_000_000 == 0 {
            lemma_padded_digits_read_back((nanos / 1_000_000) as nat, 3);
            assert(f.skip(1) =~= padded_digits((nanos / 1_000_000) as nat, 3));
            assert(pow10(3) == 1000 && pow10(6) == 1_000_000);
            assert((nanos / 1_000_000) % 1000 == nanos / 1_000_000);
            assert(f.len() == 4);
            assert(digits_value(f.skip(1)) == nanos / 1_000_000);
            assert(pow10((10 - f.len()) as nat) == 1_000_000);
            assert(digits_value(f.skip(1)) * pow10((10 - f.len()) as nat) == (nanos / 1_000_000) * 1_000_000);
        } else if nanos % 1000 == 0 {
            lemma_padded_digits_read_back((nanos / 1000) as nat, 6);
            assert(f.skip(1) =~= padded_digits((nanos / 1000) as nat, 6));
            assert(pow10(6) == 1_000_000 && pow10(3) == 1000);
            assert((nanos / 1000) % 1_000_000 == nanos / 1000);
            assert(f.len() == 7);
            assert(digits_value(f.skip(1)) == nanos / 1000);
            assert(pow10((10 - f.len()) as nat) == 1000);
            assert(digits_value(f.skip(1)) * pow10((10 - f.len()) as nat) == (nanos / 1000) * 1000);
        } else {
            lemma_padded_digits_read_back(nanos as nat, 9);
            assert(f.skip(1) =~= padded_digits(nanos as nat, 9));
            assert(pow10(9) == 1_000_000_000 && pow10(0) == 1);
            assert(f.len() == 10);
            assert(pow10((10 - f.len()) as nat) == 1);
        }
        assert(f[0] == '.');
        assert(digits_value(f.skip(1)) * pow10((10 - f.len()) as nat) == nanos);
    }
}

/// The ISO 8601 text of a span starts with a minus sign exactly when the
/// span is negative, and then with `P`.
pub proof fn lemma_iso_sign(ns: int)
    ensures
        (iso_duration_text(ns)[0] == '-') == (ns < 0),
        ns < 0 ==> iso_duration_text(ns)[1] == 'P',
        ns >= 0 ==> iso_duration_text(ns)[0] == 'P',
{
}

impl Duration {
    #[verifier::type_invariant]
    spec fn millis_fit(self) -> bool {
        (i64::MIN as int) * (NANOS_PER_MILLI as int) <= self.nanos <= (i64::MAX as int) * (NANOS_PER_MILLI as int)
    }

    /// A span of `milliseconds` milliseconds.
    pub fn milliseconds(milliseconds: i64) -> (d: Duration)
        ensures
            d@ == milliseconds * (NANOS_PER_MILLI as int),
    {
        Duration { nanos: milliseconds as i128 * NANOS_PER_MILLI }
    }

    /// A span of `microseconds` microseconds.
    pub fn microseconds(microseconds: i64) -> (d: Duration)
        ensures
            d@ == microseconds * (NANOS_PER_MICRO as int),
    {
        Duration { nanos: microseconds as i128 * NANOS_PER_MICRO }
    }

    /// A span of `nanoseconds` nanoseconds.
    pub fn nanoseconds(nanoseconds: i64) -> (d: Duration)
        ensures
            d@ == nanoseconds,
    {
        Duration { nanos: nanoseconds as i128 }
    }

    /// The whole number of milliseconds in the span, rounded toward zero.
    pub fn num_milliseconds(&self) -> (r: i64)
        ensures
            r == whole_millis(self@),
    {
        proof { use_type_invariant(self); }
        let n = self.nanos;
        let m: i128 = if n < 0 { -((-n) / NANOS_PER_MILLI) } else { n / NANOS_PER_MILLI };
        m as i64
    }

    /// Appends the ISO 8601 text of the span.
    #[verifier::rlimit(40)]
    pub fn push_iso_text(&self, s: &mut String)
        ensures
            final(s)@ == old(s)@ + iso_duration_text(self@),
    {
        proof { use_type_invariant(self); }
        let ns: i128 = self.nanos;
        let a: i128 = if ns < 0 { -ns } else { ns };
        let secs: i128 = a / NANOS_PER_SEC;
        let nanos: i128 = a % NANOS_PER_SEC;
        let days: i128 = secs / SECS_PER_DAY;
        let day_secs: i128 = secs % SECS_PER_DAY;
        assert(days < 0x1_0000_0000_0000);
        let ghost start = s@;
        if ns < 0 {
            proof { reveal_strlit("-"); }
            s.append("-");
        }
        proof { reveal_strlit("P"); }
        s.append("P");
        if days != 0 {
            push_digits(s, days as u64);
            proof { reveal_strlit("D"); }
            s.append("D");
        }
        if day_secs != 0 || nanos != 0 || days == 0 {
            push_time(s, day_secs, nanos);
        }
        assert(s@ =~= start + iso_duration_text(self@));
    }

    /// The ISO 8601 text of the span, such as `PT1.024S` for 1024
    /// milliseconds or `-PT0.002S` for minus two.
    pub fn to_iso_string(&self) -> (s: String)
        ensures
            s@ == iso_duration_text(self@),
    {
        let mut s = String::new();
        self.push_iso_text(&mut s);
        assert(s@ =~= iso_duration_text(self@));
        s
    }
}

} // verus!
