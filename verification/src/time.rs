//! Durations in whole nanoseconds, and how they are written on screen.
//!
//! A duration is shown in seconds with two decimals. The value is rounded to
//! the nearest hundredth of a second; a value that lies exactly between two
//! hundredths goes to the even one, so 1.005 s reads `1.00` and 1.015 s reads
//! `1.02`.

use vstd::prelude::*;
use vstd::string::*;

verus! {

/// Nanoseconds in one second.
pub const NANOS_PER_SECOND: u64 = 1_000_000_000;

/// Nanoseconds in one hundredth of a second, the smallest step that is shown.
pub const NANOS_PER_HUNDREDTH: u64 = 10_000_000;

/// `nanos` in hundredths of a second, rounded to the nearest hundredth, with
/// ties going to the even neighbour.
pub open spec fn hundredths(nanos: nat) -> nat {
    let below = nanos / (NANOS_PER_HUNDREDTH as nat);
    let rest = nanos % (NANOS_PER_HUNDREDTH as nat);
    if 2 * rest > NANOS_PER_HUNDREDTH || (2 * rest == NANOS_PER_HUNDREDTH && below % 2 == 1) {
        below + 1
    } else {
        below
    }
}

/// The character that stands for a single decimal digit.
pub open spec fn digit_char(digit: nat) -> char
    recommends
        digit < 10,
{
    if digit == 0 {
        '0'
    } else if digit == 1 {
        '1'
    } else if digit == 2 {
        '2'
    } else if digit == 3 {
        '3'
    } else if digit == 4 {
        '4'
    } else if digit == 5 {
        '5'
    } else if digit == 6 {
        '6'
    } else if digit == 7 {
        '7'
    } else if digit == 8 {
        '8'
    } else {
        '9'
    }
}

/// Whether `c` is one of the ten decimal digits.
pub open spec fn is_digit(c: char) -> bool {
    c == '0' || c == '1' || c == '2' || c == '3' || c == '4' || c == '5' || c == '6' || c == '7'
        || c == '8' || c == '9'
}

/// `n` in decimal, most significant digit first, without leading zeros
/// (zero itself is the single digit `0`).
pub open spec fn decimal(n: nat) -> Seq<char>
    decreases n,
{
    if n < 10 {
        seq![digit_char(n)]
    } else {
        decimal(n / 10).push(digit_char(n % 10))
    }
}

/// The text shown for a duration of `nanos` nanoseconds: the whole seconds,
/// a point, and exactly two decimals.
pub open spec fn time_text(nanos: nat) -> Seq<char> {
    let shown = hundredths(nanos);
    decimal(shown / 100) + seq!['.', digit_char(shown / 10 % 10), digit_char(shown % 10)]
}

/// The rounded value is a nearest hundredth: it is off by at most half a
/// hundredth of a second, and where it is off by exactly half, it is even.
pub proof fn lemma_hundredths_is_nearest(nanos: nat)
    ensures
        2 * (hundredths(nanos) * NANOS_PER_HUNDREDTH - nanos) <= NANOS_PER_HUNDREDTH,
        2 * (nanos - hundredths(nanos) * NANOS_PER_HUNDREDTH) <= NANOS_PER_HUNDREDTH,
        2 * (hundredths(nanos) * NANOS_PER_HUNDREDTH - nanos) == NANOS_PER_HUNDREDTH
            || 2 * (nanos - hundredths(nanos) * NANOS_PER_HUNDREDTH) == NANOS_PER_HUNDREDTH
            ==> hundredths(nanos) % 2 == 0,
{
}

/// A number written in decimal has at least one digit and nothing but
/// digits.
pub proof fn lemma_decimal_is_digits(n: nat)
    ensures
        decimal(n).len() >= 1,
        forall|i: int| 0 <= i < decimal(n).len() ==> is_digit(#[trigger] decimal(n)[i]),
    decreases n,
{
    if n >= 10 {
        lemma_decimal_is_digits(n / 10);
    }
}

/// Every time text has exactly two decimals: it is a run of digits, a point
/// and two more digits.
pub proof fn lemma_time_text_shape(nanos: nat)
    ensures
        time_text(nanos).len() >= 4,
        time_text(nanos)[time_text(nanos).len() - 3] == '.',
        forall|i: int|
            0 <= i < time_text(nanos).len() && i != time_text(nanos).len() - 3 ==> is_digit(
                #[trigger] time_text(nanos)[i],
            ),
{
    let whole = decimal(hundredths(nanos) / 100);
    lemma_decimal_is_digits(hundredths(nanos) / 100);
    assert forall|i: int|
        0 <= i < time_text(nanos).len() && i != time_text(nanos).len() - 3 implies is_digit(
        #[trigger] time_text(nanos)[i],
    ) by {
        if i < whole.len() {
            assert(time_text(nanos)[i] == whole[i]);
        }
    }
}

/// Rounds a duration to hundredths of a second, ties to even.
pub fn round_to_hundredths(nanos: u64) -> (shown: u64)
    ensures
        shown == hundredths(nanos as nat),
{
    let below: u64 = nanos / NANOS_PER_HUNDREDTH;
    let rest: u64 = nanos % NANOS_PER_HUNDREDTH;
    let half: u64 = NANOS_PER_HUNDREDTH / 2;
    if rest > half || (rest == half && below % 2 == 1) {
        below + 1
    } else {
        below
    }
}

/// The one-character text of a decimal digit.
fn digit_text(digit: u64) -> (text: &'static str)
    requires
        digit < 10,
    ensures
        text@ == seq![digit_char(digit as nat)],
{
    proof {
        reveal_strlit("0");
        reveal_strlit("1");
        reveal_strlit("2");
        reveal_strlit("3");
        reveal_strlit("4");
        reveal_strlit("5");
        reveal_strlit("6");
        reveal_strlit("7");
        reveal_strlit("8");
        reveal_strlit("9");
    }
    let text = if digit == 0 {
        "0"
    } else if digit == 1 {
        "1"
    } else if digit == 2 {
        "2"
    } else if digit == 3 {
        "3"
    } else if digit == 4 {
        "4"
    } else if digit == 5 {
        "5"
    } else if digit == 6 {
        "6"
    } else if digit == 7 {
        "7"
    } else if digit == 8 {
        "8"
    } else {
        "9"
    };
    text
}

/// Appends `n` in decimal to `out`.
fn push_decimal(out: &mut String, n: u64)
    ensures
        final(out)@ == old(out)@ + decimal(n as nat),
    decreases n,
{
    if n >= 10 {
        push_decimal(out, n / 10);
    }
    out.append(digit_text(n % 10));
}

/// Writes a duration in seconds with two decimals, as [`time_text`] defines it.
pub fn format_time(nanos: u64) -> (text: String)
    ensures
        text@ == time_text(nanos as nat),
{
    let shown: u64 = round_to_hundredths(nanos);
    let mut text = String::new();
    push_decimal(&mut text, shown / 100);
    proof {
        reveal_strlit(".");
    }
    text.append(".");
    text.append(digit_text(shown / 10 % 10));
    text.append(digit_text(shown % 10));
    text
}

} // verus!
