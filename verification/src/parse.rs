//! Reading channel values out of the text of input fields.

use crate::color::Color;
use vstd::prelude::*;

verus! {

/// The ASCII code of the plus sign.
const PLUS: u8 = 43;

/// The ASCII code of the digit zero.
const ZERO: u8 = 48;

/// The ASCII code of the digit nine.
const NINE: u8 = 57;

/// Whether `c` is one of the ten decimal digits.
pub open spec fn is_digit(c: char) -> bool {
    '0' <= c <= '9'
}

/// The number that a decimal digit stands for.
pub open spec fn digit_value(c: char) -> nat
    recommends
        is_digit(c),
{
    (c as nat - '0' as nat) as nat
}

/// Whether `s` holds decimal digits only.
pub open spec fn all_digits(s: Seq<char>) -> bool {
    forall|i: int| 0 <= i < s.len() ==> is_digit(#[trigger] s[i])
}

/// The number that a sequence of decimal digits stands for, most
/// significant digit first. Leading zeros do not count.
pub open spec fn digits_value(s: Seq<char>) -> nat
    recommends
        all_digits(s),
    decreases s.len(),
{
    if s.len() == 0 {
        0
    } else {
        10 * digits_value(s.drop_last()) + digit_value(s.last())
    }
}

/// `s` without one leading plus sign, where it has one.
pub open spec fn unsigned_part(s: Seq<char>) -> Seq<char> {
    if s.len() > 0 && s[0] == '+' {
        s.drop_first()
    } else {
        s
    }
}

/// The channel value that a text stands for: the text is one or more
/// decimal digits, with or without one plus sign before them and with
/// nothing else around them, and their number is 255 at most. Any other
/// text stands for no value.
pub open spec fn channel_value(s: Seq<char>) -> Option<u8> {
    let digits = unsigned_part(s);
    if digits.len() > 0 && all_digits(digits) && digits_value(digits) <= 255 {
        Some(digits_value(digits) as u8)
    } else {
        None
    }
}

/// The color that the texts of three fields stand for: each of them has to
/// stand for a channel value.
pub open spec fn color_value(red: Seq<char>, green: Seq<char>, blue: Seq<char>) -> Option<Color> {
    match (channel_value(red), channel_value(green), channel_value(blue)) {
        (Some(red), Some(green), Some(blue)) => Some(Color { red, green, blue }),
        _ => None,
    }
}

/// The digits read so far never stand for more than all the digits do.
proof fn lemma_digits_value_grows(s: Seq<char>, k: int)
    requires
        0 <= k <= s.len(),
    ensures
        digits_value(s.subrange(0, k)) <= digits_value(s),
    decreases s.len() - k,
{
    if k == s.len() {
        assert(s.subrange(0, k) =~= s);
    } else {
        lemma_digits_value_grows(s.drop_last(), k);
        assert(s.drop_last().subrange(0, k) =~= s.subrange(0, k));
    }
}

/// Reads a channel value from the text of an input field. The text is not
/// trimmed: a space, a minus sign or any other character that is no digit
/// makes it unreadable, and so does a number above 255.
pub fn parse_channel(text: &str) -> (value: Option<u8>)
    ensures
        value == channel_value(text@),
{
    if !text.is_ascii() {
        proof {
            // A character beyond ASCII is neither a plus sign nor a digit.
            let i = choose|i: int|
                0 <= i < text@.len() && !('\0' <= #[trigger] text@[i] && text@[i] <= '\u{7f}');
            let digits = unsigned_part(text@);
            assert(!is_digit(digits[i - (text@.len() - digits.len())]));
        }
        return None;
    }
    let n = text.unicode_len();
    let start: usize = if n > 0 && text.get_ascii(0) == PLUS {
        1
    } else {
        0
    };
    let ghost digits = unsigned_part(text@);
    assert(digits =~= text@.subrange(start as int, n as int));
    if start == n {
        return None;
    }
    let mut i: usize = start;
    let mut value: u16 = 0;
    while i < n
        invariant
            text.is_ascii(),
            n == text@.len(),
            start <= i <= n,
            digits == unsigned_part(text@),
            digits == text@.subrange(start as int, n as int),
            all_digits(digits.subrange(0, i - start)),
            value == digits_value(digits.subrange(0, i - start)),
            value <= 255,
        decreases n - i,
    {
        let byte = text.get_ascii(i);
        let ghost read = digits.subrange(0, i + 1 - start);
        assert(read.drop_last() =~= digits.subrange(0, i - start));
        if byte < ZERO || byte > NINE {
            assert(!is_digit(digits[i - start]));
            return None;
        }
        value = value * 10 + (byte - ZERO) as u16;
        if value > 255 {
            proof {
                lemma_digits_value_grows(digits, i + 1 - start);
            }
            return None;
        }
        i += 1;
    }
    assert(digits.subrange(0, i - start) =~= digits);
    Some(value as u8)
}

/// Reads a color from the texts of three input fields. One unreadable
/// field makes the whole color unreadable.
pub fn parse_color(red: &str, green: &str, blue: &str) -> (color: Option<Color>)
    ensures
        color == color_value(red@, green@, blue@),
{
    match (parse_channel(red), parse_channel(green), parse_channel(blue)) {
        (Some(red), Some(green), Some(blue)) => Some(Color { red, green, blue }),
        _ => None,
    }
}

} // verus!
