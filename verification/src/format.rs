//! Decimal text of integers, built into `String`s with proofs of what
//! each character is.

use vstd::prelude::*;

verus! {

/// The character of a decimal digit.
pub open spec fn digit_char(d: int) -> char {
    if d == 0 {
        '0'
    } else if d == 1 {
        '1'
    } else if d == 2 {
        '2'
    } else if d == 3 {
        '3'
    } else if d == 4 {
        '4'
    } else if d == 5 {
        '5'
    } else if d == 6 {
        '6'
    } else if d == 7 {
        '7'
    } else if d == 8 {
        '8'
    } else {
        '9'
    }
}

/// The decimal digits of a natural number, most significant first,
/// without leading zeros (`0` is written `"0"`).
pub open spec fn decimal_digits(n: nat) -> Seq<char>
    decreases n,
{
    if n < 10 {
        seq![digit_char(n as int)]
    } else {
        decimal_digits(n / 10).push(digit_char((n % 10) as int))
    }
}

/// The decimal text of an integer: a minus sign before the digits of a
/// negative number.
pub open spec fn decimal_text(n: int) -> Seq<char> {
    if n < 0 {
        seq!['-'] + decimal_digits((-n) as nat)
    } else {
        decimal_digits(n as nat)
    }
}

/// The last `width` decimal digits of a number, padded with zeros on
/// the left.
pub open spec fn padded_digits(n: nat, width: nat) -> Seq<char>
    decreases width,
{
    if width == 0 {
        Seq::<char>::empty()
    } else {
        padded_digits(n / 10, (width - 1) as nat).push(digit_char((n % 10) as int))
    }
}

/// The number that a text of decimal digits stands for, read from the
/// characters' codes.
pub open spec fn digits_value(s: Seq<char>) -> int
    decreases s.len(),
{
    if s.len() == 0 {
        0
    } else {
        digits_value(s.drop_last()) * 10 + ((s.last() as int) - ('0' as int))
    }
}

/// Ten to the power `w`.
pub open spec fn pow10(w: nat) -> nat
    decreases w,
{
    if w == 0 {
        1
    } else {
        10 * pow10((w - 1) as nat)
    }
}

proof fn lemma_digit_char_code(d: int)
    requires
        0 <= d < 10,
    ensures
        (digit_char(d) as int) - ('0' as int) == d,
        '0' <= digit_char(d) <= '9',
{
}

/// The decimal text of a number is made of digits only, starts with a
/// digit other than zero unless the number is zero, and reads back as the
/// number.
pub proof fn lemma_decimal_digits_read_back(n: nat)
    ensures
        decimal_digits(n).len() >= 1,
        forall|i: int| 0 <= i < decimal_digits(n).len() ==> '0' <= #[trigger] decimal_digits(n)[i] <= '9',
        n != 0 ==> decimal_digits(n)[0] != '0',
        digits_value(decimal_digits(n)) == n,
    decreases n,
{
    lemma_digit_char_code((n % 10) as int);
    if n >= 10 {
        lemma_decimal_digits_read_back(n / 10);
        let s = decimal_digits(n);
        assert(s.drop_last() =~= decimal_digits(n / 10));
        assert(s[0] == decimal_digits(n / 10)[0]);
        assert(s.last() == digit_char((n % 10) as int));
        assert(digits_value(s) == digits_value(decimal_digits(n / 10)) * 10 + (n % 10));
    } else {
        let s = decimal_digits(n);
        assert(s.drop_last() =~= Seq::<char>::empty());
        assert(digits_value(s.drop_last()) == 0);
        assert(s.last() == digit_char(n as int));
    }
}

/// A zero-padded text has exactly the width asked for, is made of digits
/// only, and reads back as the number's last `width` digits.
pub proof fn lemma_padded_digits_read_back(n: nat, width: nat)
    ensures
        padded_digits(n, width).len() == width,
        forall|i: int| 0 <= i < width ==> '0' <= #[trigger] padded_digits(n, width)[i] <= '9',
        digits_value(padded_digits(n, width)) == n % pow10(width),
    decreases width,
{
    if width > 0 {
        lemma_padded_digits_read_back(n / 10, (width - 1) as nat);
        lemma_digit_char_code((n % 10) as int);
        let s = padded_digits(n, width);
        assert(s.drop_last() =~= padded_digits(n / 10, (width - 1) as nat));
        let p = pow10((width - 1) as nat);
        assert(p > 0) by {
            lemma_pow10_positive((width - 1) as nat);
        }
        vstd::arithmetic::div_mod::lemma_breakdown(n as int, 10, p as int);
        assert(n % pow10(width) == 10 * ((n / 10) % p) + n % 10);
    }
}

proof fn lemma_pow10_positive(w: nat)
    ensures
        pow10(w) > 0,
    decreases w,
{
    if w > 0 {
        lemma_pow10_positive((w - 1) as nat);
    }
}

/// The text of a boolean.
pub open spec fn bool_text(b: bool) -> Seq<char> {
    if b {
        seq!['t', 'r', 'u', 'e']
    } else {
        seq!['f', 'a', 'l', 's', 'e']
    }
}

/// A string literal holding one decimal digit.
fn digit_str(d: u64) -> (s: &'static str)
    requires
        d < 10,
    ensures
        s@ == seq![digit_char(d as int)],
{
    if d == 0 {
        proof { reveal_strlit("0"); }
        "0"
    } else if d == 1 {
        proof { reveal_strlit("1"); }
        "1"
    } else if d == 2 {
        proof { reveal_strlit("2"); }
        "2"
    } else if d == 3 {
        proof { reveal_strlit("3"); }
        "3"
    } else if d == 4 {
        proof { reveal_strlit("4"); }
        "4"
    } else if d == 5 {
        proof { reveal_strlit("5"); }
        "5"
    } else if d == 6 {
        proof { reveal_strlit("6"); }
        "6"
    } else if d == 7 {
        proof { reveal_strlit("7"); }
        "7"
    } else if d == 8 {
        proof { reveal_strlit("8"); }
        "8"
    } else {
        proof { reveal_strlit("9"); }
        "9"
    }
}

/// Appends the decimal digits of `n`.
pub fn push_digits(s: &mut String, n: u64)
    ensures
        final(s)@ == old(s)@ + decimal_digits(n as nat),
    decreases n,
{
    if n >= 10 {
        push_digits(s, n / 10);
    }
    s.append(digit_str(n % 10));
    proof {
        if n >= 10 {
            assert(old(s)@ + decimal_digits(n as nat) =~= old(s)@ + decimal_digits((n / 10) as nat)
                + seq![digit_char((n % 10) as int)]);
        }
    }
}

/// Appends the decimal text of `n`, with a minus sign when it is negative.
pub fn push_decimal(s: &mut String, n: i64)
    ensures
        final(s)@ == old(s)@ + decimal_text(n as int),
{
    if n < 0 {
        proof { reveal_strlit("-"); }
        s.append("-");
        let m: i128 = -(n as i128);
        let magnitude: u64 = m as u64;
        push_digits(s, magnitude);
        assert(final(s)@ =~= old(s)@ + decimal_text(n as int));
    } else {
        push_digits(s, n as u64);
    }
}

/// Appends the last `width` digits of `n`, padded with zeros.
pub fn push_padded(s: &mut String, n: u64, width: u32)
    ensures
        final(s)@ == old(s)@ + padded_digits(n as nat, width as nat),
    decreases width,
{
    if width > 0 {
        push_padded(s, n / 10, width - 1);
        s.append(digit_str(n % 10));
        assert(final(s)@ =~= old(s)@ + padded_digits(n as nat, width as nat));
    }
}

/// Appends `true` or `false`.
pub fn push_bool(s: &mut String, b: bool)
    ensures
        final(s)@ == old(s)@ + bool_text(b),
{
    if b {
        proof { reveal_strlit("true"); }
        s.append("true");
    } else {
        proof { reveal_strlit("false"); }
        s.append("false");
    }
}

} // verus!
