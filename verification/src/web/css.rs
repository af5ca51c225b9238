//! CSS values: numbers in decimal, lengths and class names.

use vstd::prelude::*;
use vstd::string::StringExecFns;
use crate::model::length::Length;
use crate::model::text::char_string;

verus! {

/// The character of the digit `d`.
pub open spec fn digit(d: int) -> char {
    if d == 0 {
        '0'
    } else if d == 1 {
        '1'
    } else if d == 2 {
        '2'
    } else if d == 3 {
        '3'
    } else if d == 4 {
        '4'
    } else if d == 5 {
        '5'
    } else if d == 6 {
        '6'
    } else if d == 7 {
        '7'
    } else if d == 8 {
        '8'
    } else {
        '9'
    }
}

/// The decimal digits of `n`, the most significant first, without leading
/// zeros; the one digit `0` for 0.
pub open spec fn decimal(n: nat) -> Seq<char>
    decreases n,
{
    if n < 10 {
        seq![digit(n as int)]
    } else {
        decimal(n / 10).push(digit((n % 10) as int))
    }
}

/// The decimal form of an integer: a minus sign in front of the digits of a
/// negative one.
pub open spec fn signed_decimal(i: int) -> Seq<char> {
    if i < 0 {
        seq!['-'] + decimal((-i) as nat)
    } else {
        decimal(i as nat)
    }
}

/// The CSS value of a length: `auto` to shrink, the pixels of a fixed
/// length, and `100%` to fill.
pub open spec fn length_value(length: Length) -> Seq<char> {
    match length {
        Length::Shrink => "auto"@,
        Length::Units(px) => decimal(px as nat) + "px"@,
        Length::Fill => "100%"@,
        Length::FillPortion(_) => "100%"@,
    }
}

/// The name of the CSS class that pads a container by `units` pixels.
pub open spec fn padding_class_name(units: u16) -> Seq<char> {
    "p-"@ + decimal(units as nat)
}

/// `iced_web::css::length`: `auto` for a shrinking length, the number of
/// pixels followed by `px` for a fixed one, `100%` for a filling one.
#[verifier::external_body]
pub(crate) fn css_length(value: Length) -> (s: String)
    ensures
        s@ == length_value(value),
{
    iced_web::css::length(
        match value {
            Length::Fill => iced_web::Length::Fill,
            Length::FillPortion(portion) => iced_web::Length::FillPortion(portion),
            Length::Shrink => iced_web::Length::Shrink,
            Length::Units(px) => iced_web::Length::Units(px),
        },
    )
}

/// `iced_web::css::Rule::class` of the padding rule: `p-` followed by the
/// number of pixels.
#[verifier::external_body]
pub(crate) fn padding_class(units: u16) -> (s: String)
    ensures
        s@ == padding_class_name(units),
{
    iced_web::css::Rule::Padding(units).class()
}

/// The character of a digit.
fn digit_char(d: u32) -> (c: char)
    requires
        d < 10,
    ensures
        c == digit(d as int),
{
    if d == 0 {
        '0'
    } else if d == 1 {
        '1'
    } else if d == 2 {
        '2'
    } else if d == 3 {
        '3'
    } else if d == 4 {
        '4'
    } else if d == 5 {
        '5'
    } else if d == 6 {
        '6'
    } else if d == 7 {
        '7'
    } else if d == 8 {
        '8'
    } else {
        '9'
    }
}

/// Writes `n` in decimal.
pub fn decimal_string(n: u32) -> (s: String)
    ensures
        s@ == decimal(n as nat),
    decreases n,
{
    if n < 10 {
        char_string(digit_char(n))
    } else {
        let mut s = decimal_string(n / 10);
        let last = char_string(digit_char(n % 10));
        s.append(last.as_str());
        assert(s@ =~= decimal((n / 10) as nat).push(digit((n % 10) as int)));
        s
    }
}

/// Writes `i` in decimal, with a minus sign if it is negative.
pub fn signed_decimal_string(i: i32) -> (s: String)
    ensures
        s@ == signed_decimal(i as int),
{
    if i < 0 {
        let magnitude: u32 = if i == i32::MIN {
            0x8000_0000
        } else {
            (-i) as u32
        };
        let mut s = char_string('-');
        let digits = decimal_string(magnitude);
        s.append(digits.as_str());
        s
    } else {
        decimal_string(i as u32)
    }
}

} // verus!
