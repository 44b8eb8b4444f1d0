//! The pen's palette, and how a command names a color in it.
//!
//! A color is chosen by its index, written as an unsigned decimal number.
//! Index 1 is red, 2 is green and 3 is blue. Every other index, and every
//! token that is no index at all, chooses black.

use vstd::prelude::*;

verus! {

/// A color of the palette.
#[derive(Clone, Copy, Debug, PartialEq, Eq, Structural)]
pub enum Color {
    Black,
    Red,
    Green,
    Blue,
}

/// The color at an index of the palette.
pub open spec fn palette(index: nat) -> Color {
    if index == 1 {
        Color::Red
    } else if index == 2 {
        Color::Green
    } else if index == 3 {
        Color::Blue
    } else {
        Color::Black
    }
}

/// The decimal digits.
pub open spec fn is_digit(c: char) -> bool {
    '0' <= c <= '9'
}

/// What a digit counts for.
pub open spec fn digit_value(c: char) -> nat {
    (c as nat - '0' as nat) as nat
}

/// The number that a sequence of digits writes, most significant digit
/// first. Leading zeros count for nothing.
pub open spec fn decimal(digits: Seq<char>) -> nat
    decreases digits.len(),
{
    if digits.len() == 0 {
        0
    } else {
        decimal(digits.drop_last()) * 10 + digit_value(digits.last())
    }
}

/// The number that `text` writes, if it is made of digits and has at least
/// one.
pub open spec fn digits_value(text: Seq<char>) -> Option<nat> {
    if text.len() > 0 && (forall|i: int| 0 <= i < text.len() ==> is_digit(#[trigger] text[i])) {
        Some(decimal(text))
    } else {
        None
    }
}

/// The index that a token writes: digits, with one plus sign before them or
/// none.
pub open spec fn index_value(token: Seq<char>) -> Option<nat> {
    if token.len() > 0 && token[0] == '+' {
        digits_value(token.drop_first())
    } else {
        digits_value(token)
    }
}

/// The color that a token chooses.
pub open spec fn chosen_color(token: Seq<char>) -> Color {
    match index_value(token) {
        Some(index) => palette(index),
        None => Color::Black,
    }
}

/// What a machine index can hold of a written one: the number itself, if it
/// fits.
pub open spec fn fitting(value: Option<nat>) -> Option<usize> {
    match value {
        Some(v) => if v <= usize::MAX {
            Some(v as usize)
        } else {
            None
        },
        None => None,
    }
}

/// Digits that follow only make a number larger.
proof fn decimal_grows(digits: Seq<char>, k: int)
    requires
        0 <= k <= digits.len(),
    ensures
        decimal(digits.take(k)) <= decimal(digits),
    decreases digits.len() - k,
{
    if k == digits.len() {
        assert(digits.take(k) == digits);
    } else {
        decimal_grows(digits, k + 1);
        assert(digits.take(k + 1).drop_last() == digits.take(k));
    }
}

impl Color {
    /// The red, green and blue parts of the color, each from 0 to 255.
    pub open spec fn spec_rgb(self) -> (u8, u8, u8) {
        match self {
            Color::Black => (0, 0, 0),
            Color::Red => (255, 0, 0),
            Color::Green => (0, 255, 0),
            Color::Blue => (0, 0, 255),
        }
    }

    /// The red, green and blue parts of the color, each from 0 to 255.
    #[verifier::when_used_as_spec(spec_rgb)]
    pub fn rgb(self) -> (r: (u8, u8, u8))
        ensures
            r == self.spec_rgb(),
    {
        match self {
            Color::Black => (0, 0, 0),
            Color::Red => (255, 0, 0),
            Color::Green => (0, 255, 0),
            Color::Blue => (0, 0, 255),
        }
    }
}

impl Default for Color {
    /// The pen is black until a command says otherwise.
    fn default() -> (r: Color)
        ensures
            r == Color::Black,
    {
        Color::Black
    }
}

/// The color at an index of the palette.
pub fn index_to_color(index: usize) -> (r: Color)
    ensures
        r == palette(index as nat),
{
    match index {
        1 => Color::Red,
        2 => Color::Green,
        3 => Color::Blue,
        _ => Color::Black,
    }
}

/// Reads a sequence of digits as a number. There is no number where the
/// text is empty, holds anything but digits, or writes more than `usize`
/// can hold.
pub fn parse_digits(text: &str) -> (r: Option<usize>)
    ensures
        r == fitting(digits_value(text@)),
{
    let mut value: usize = 0;
    let mut seen: bool = false;
    for c in it: text.chars()
        invariant
            it.seq() == text@,
            seen == (it.index() > 0),
            forall|i: int| 0 <= i < it.index() ==> is_digit(#[trigger] text@[i]),
            value == decimal(text@.take(it.index())),
    {
        let ghost k = it.index();
        if !('0' <= c && c <= '9') {
            return None;
        }
        let digit: usize = (c as u32 - '0' as u32) as usize;
        proof {
            assert(text@.take(k + 1).drop_last() == text@.take(k));
            if digits_value(text@) is Some {
                decimal_grows(text@, k + 1);
            }
        }
        if value > (usize::MAX - digit) / 10 {
            return None;
        }
        value = value * 10 + digit;
        seen = true;
    }
    assert(text@.take(text@.len() as int) == text@);
    if seen {
        Some(value)
    } else {
        None
    }
}

/// Reads a token as an index: digits, with one plus sign before them or
/// none.
pub fn parse_index(token: &str) -> (r: Option<usize>)
    ensures
        r == fitting(index_value(token@)),
{
    let n: usize = token.unicode_len();
    if n > 0 && token.get_char(0) == '+' {
        proof {
            assert(token@.subrange(1, n as int) == token@.drop_first());
        }
        parse_digits(token.substring_char(1, n))
    } else {
        parse_digits(token)
    }
}

/// The color that a token chooses: the color at the index that it writes,
/// and black where it writes none.
pub fn token_to_color(token: &str) -> (r: Color)
    ensures
        r == chosen_color(token@),
{
    match parse_index(token) {
        Some(index) => index_to_color(index),
        None => Color::Black,
    }
}

} // verus!
