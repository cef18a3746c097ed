//! Decimal notation for signed integers.

use vstd::prelude::*;
use vstd::string::StringExecFns;

verus! {

/// The character that writes the digit `d`, for `d` from 0 to 9.
pub open spec fn digit_char(d: int) -> char
    recommends
        0 <= d <= 9,
{
    if d == 0 {
        '0'
    } else if d == 1 {
        '1'
    } else if d == 2 {
        '2'
    } else if d == 3 {
        '3'
    } else if d == 4 {
        '4'
    } else if d == 5 {
        '5'
    } else if d == 6 {
        '6'
    } else if d == 7 {
        '7'
    } else if d == 8 {
        '8'
    } else {
        '9'
    }
}

/// The digits of `n` in base ten, most significant first, without leading
/// zeros; zero is the single digit `0`.
pub open spec fn natural_decimal(n: nat) -> Seq<char>
    decreases n,
{
    if n < 10 {
        seq![digit_char(n as int)]
    } else {
        natural_decimal(n / 10).push(digit_char((n % 10) as int))
    }
}

/// The decimal notation of `v`: its magnitude in base ten, behind a minus
/// sign when `v` is negative.
pub open spec fn decimal(v: int) -> Seq<char> {
    if v < 0 {
        seq!['-'] + natural_decimal((-v) as nat)
    } else {
        natural_decimal(v as nat)
    }
}

/// The digit that `c` writes, if it writes one.
pub open spec fn digit_value(c: char) -> Option<int> {
    if c == '0' {
        Some(0)
    } else if c == '1' {
        Some(1)
    } else if c == '2' {
        Some(2)
    } else if c == '3' {
        Some(3)
    } else if c == '4' {
        Some(4)
    } else if c == '5' {
        Some(5)
    } else if c == '6' {
        Some(6)
    } else if c == '7' {
        Some(7)
    } else if c == '8' {
        Some(8)
    } else if c == '9' {
        Some(9)
    } else {
        None
    }
}

/// The number that a non-empty row of digits writes in base ten; `None`
/// for the empty row and for a row that holds anything but digits.
pub open spec fn read_natural(s: Seq<char>) -> Option<nat>
    decreases s.len(),
{
    if s.len() == 0 {
        None
    } else {
        match digit_value(s.last()) {
            None => None,
            Some(d) => if s.len() == 1 {
                Some(d as nat)
            } else {
                match read_natural(s.drop_last()) {
                    None => None,
                    Some(front) => Some((front * 10 + d) as nat),
                }
            },
        }
    }
}

/// The integer that `s` writes: a row of digits, or a minus sign and a row
/// of digits.
pub open spec fn read_decimal(s: Seq<char>) -> Option<int> {
    if s.len() > 0 && s.first() == '-' {
        match read_natural(s.drop_first()) {
            None => None,
            Some(n) => Some(-(n as int)),
        }
    } else {
        match read_natural(s) {
            None => None,
            Some(n) => Some(n as int),
        }
    }
}

/// The digits of a natural number are digits, at least one of them, and the
/// first is a zero only when the number is zero.
pub proof fn lemma_natural_decimal_shape(n: nat)
    ensures
        natural_decimal(n).len() >= 1,
        n < 10 <==> natural_decimal(n).len() == 1,
        forall|i: int|
            0 <= i < natural_decimal(n).len() ==> digit_value(
                #[trigger] natural_decimal(n)[i],
            ) is Some,
        natural_decimal(n).first() == '0' <==> n == 0,
    decreases n,
{
    if n >= 10 {
        lemma_natural_decimal_shape(n / 10);
    }
}

/// The digits of a natural number, read back, give the number.
pub proof fn lemma_read_natural_decimal(n: nat)
    ensures
        read_natural(natural_decimal(n)) == Some(n),
    decreases n,
{
    if n >= 10 {
        lemma_read_natural_decimal(n / 10);
        lemma_natural_decimal_shape(n / 10);
        assert(natural_decimal(n).drop_last() =~= natural_decimal(n / 10));
    }
}

/// Decimal notation, read back, gives the integer: no two integers are
/// written alike.
pub proof fn lemma_read_decimal(v: int)
    ensures
        read_decimal(decimal(v)) == Some(v),
{
    if v < 0 {
        let digits = natural_decimal((-v) as nat);
        lemma_read_natural_decimal((-v) as nat);
        assert(decimal(v).drop_first() =~= digits);
    } else {
        lemma_read_natural_decimal(v as nat);
        lemma_natural_decimal_shape(v as nat);
    }
}

/// The one-character string for a digit below ten.
fn digit_str(d: u64) -> (s: &'static str)
    requires
        d < 10,
    ensures
        s@ == seq![digit_char(d as int)],
{
    proof {
        reveal_strlit("0");
        reveal_strlit("1");
        reveal_strlit("2");
        reveal_strlit("3");
        reveal_strlit("4");
        reveal_strlit("5");
        reveal_strlit("6");
        reveal_strlit("7");
        reveal_strlit("8");
        reveal_strlit("9");
    }
    let s = if d == 0 {
        "0"
    } else if d == 1 {
        "1"
    } else if d == 2 {
        "2"
    } else if d == 3 {
        "3"
    } else if d == 4 {
        "4"
    } else if d == 5 {
        "5"
    } else if d == 6 {
        "6"
    } else if d == 7 {
        "7"
    } else if d == 8 {
        "8"
    } else {
        "9"
    };
    assert(s@ =~= seq![digit_char(d as int)]);
    s
}

/// Appends the decimal digits of `n` to `out`.
fn append_natural(out: &mut String, n: u64)
    ensures
        final(out)@ == old(out)@ + natural_decimal(n as nat),
    decreases n,
{
    if n >= 10 {
        append_natural(out, n / 10);
    }
    out.append(digit_str(n % 10));
}

/// Writes `v` in decimal notation.
pub fn format_decimal(v: i64) -> (s: String)
    ensures
        s@ == decimal(v as int),
{
    let mut s = String::new();
    if v < 0 {
        proof {
            reveal_strlit("-");
        }
        s.append("-");
        let m: i128 = -(v as i128);
        append_natural(&mut s, m as u64);
    } else {
        append_natural(&mut s, v as u64);
    }
    s
}

} // verus!
