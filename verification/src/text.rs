//! The texts in which colors are written: unpadded lower-case hexadecimal
//! and decimal numbers, hex codes and CSS gradients.

use crate::color::Color;
use vstd::prelude::*;

verus! {

/// The digits of the bases up to sixteen, lowest first, letters in lower case.
pub open spec fn digit_chars() -> Seq<char> {
    seq!['0', '1', '2', '3', '4', '5', '6', '7', '8', '9', 'a', 'b', 'c', 'd', 'e', 'f']
}

/// The digit that stands for `d`, for `d` below sixteen.
pub open spec fn digit_char(d: int) -> char
    recommends
        0 <= d < 16,
{
    digit_chars()[d]
}

/// `n` written in positional notation to the given base, most significant
/// digit first, without sign and without leading zeros; zero is one digit.
pub open spec fn number_text(n: nat, base: nat) -> Seq<char>
    recommends
        2 <= base <= 16,
    decreases n,
{
    if n < base || base < 2 {
        seq![digit_char(n as int)]
    } else {
        proof {
            assert(n / base < n) by (nonlinear_arith)
                requires
                    2 <= base <= n,
            ;
        }
        number_text(n / base, base).push(digit_char((n % base) as int))
    }
}

/// A channel value in lower-case hexadecimal, one digit below sixteen and
/// two from there on.
pub open spec fn hex_text(v: u8) -> Seq<char> {
    number_text(v as nat, 16)
}

/// A channel value in decimal, one to three digits.
pub open spec fn decimal_text(v: u8) -> Seq<char> {
    number_text(v as nat, 10)
}

/// The hex code of a color: a number sign, then the three channels in
/// hexadecimal, none of them padded to two digits.
pub open spec fn hex_code(c: Color) -> Seq<char> {
    seq!['#'] + hex_text(c.red) + hex_text(c.green) + hex_text(c.blue)
}

/// A color as a CSS `rgb(..)` value with decimal channels.
pub open spec fn rgb_text(c: Color) -> Seq<char> {
    "rgb("@ + decimal_text(c.red) + ","@ + decimal_text(c.green) + ","@ + decimal_text(c.blue)
        + ")"@
}

/// A left-to-right CSS linear gradient between two colors.
pub open spec fn gradient_text(from: Color, to: Color) -> Seq<char> {
    "linear-gradient(to right, "@ + rgb_text(from) + ", "@ + rgb_text(to) + ")"@
}

/// The one-character text of a digit.
fn digit_str(d: u8) -> (s: &'static str)
    requires
        d < 16,
    ensures
        s@ == seq![digit_char(d as int)],
{
    let digits = "0123456789abcdef";
    proof {
        reveal_strlit("0123456789abcdef");
    }
    digits.substring_ascii(d as usize, d as usize + 1)
}

/// Writes a channel value in lower-case hexadecimal without padding.
pub fn hex_string(v: u8) -> (s: String)
    ensures
        s@ == hex_text(v),
{
    proof {
        reveal_with_fuel(number_text, 2);
    }
    if v < 16 {
        String::from_str(digit_str(v))
    } else {
        let mut s = String::from_str(digit_str(v / 16));
        s.append(digit_str(v % 16));
        s
    }
}

/// Writes a channel value in decimal.
pub fn decimal_string(v: u8) -> (s: String)
    ensures
        s@ == decimal_text(v),
{
    proof {
        reveal_with_fuel(number_text, 3);
    }
    if v < 10 {
        String::from_str(digit_str(v))
    } else if v < 100 {
        let mut s = String::from_str(digit_str(v / 10));
        s.append(digit_str(v % 10));
        s
    } else {
        let mut s = String::from_str(digit_str(v / 100));
        s.append(digit_str(v / 10 % 10));
        s.append(digit_str(v % 10));
        s
    }
}

impl Color {
    /// The hex code of the color, such as `#ff010` for (255, 0, 16).
    pub fn hex(&self) -> (s: String)
        ensures
            s@ == hex_code(*self),
    {
        let mut s = String::from_str("#");
        proof {
            reveal_strlit("#");
        }
        let red = hex_string(self.red);
        let green = hex_string(self.green);
        let blue = hex_string(self.blue);
        s.append(red.as_str());
        s.append(green.as_str());
        s.append(blue.as_str());
        s
    }

    /// The color as a CSS `rgb(..)` value.
    pub fn css_rgb(&self) -> (s: String)
        ensures
            s@ == rgb_text(*self),
    {
        let mut s = String::from_str("rgb(");
        let red = decimal_string(self.red);
        let green = decimal_string(self.green);
        let blue = decimal_string(self.blue);
        s.append(red.as_str());
        s.append(",");
        s.append(green.as_str());
        s.append(",");
        s.append(blue.as_str());
        s.append(")");
        s
    }
}

/// The CSS text of a left-to-right linear gradient from `from` to `to`.
pub fn gradient_css(from: Color, to: Color) -> (s: String)
    ensures
        s@ == gradient_text(from, to),
{
    let mut s = String::from_str("linear-gradient(to right, ");
    let start = from.css_rgb();
    let end = to.css_rgb();
    s.append(start.as_str());
    s.append(", ");
    s.append(end.as_str());
    s.append(")");
    s
}

} // verus!
