//! Strings: the few operations on `str`, `String` and `char` that the crate
//! needs, and decimal numerals.

use vstd::prelude::*;
use vstd::std_specs::iter::IteratorSpec;

verus! {

/// The comparison of two string slices, `str`'s `eq`: they are equal exactly
/// when they hold the same characters in the same order.
pub assume_specification[ <str as PartialEq>::eq ](left: &str, right: &str) -> (equal: bool)
    ensures
        equal == (left@ == right@),
;

/// `String::push` appends the character at the end of the string and
/// changes nothing else.
pub assume_specification[ String::push ](text: &mut String, c: char)
    ensures
        final(text)@ == old(text)@.push(c),
;

/// What `char::is_alphabetic` returns for a character: whether it has
/// Unicode's `Alphabetic` property. The tables are std's; nothing is claimed
/// of any single character.
pub uninterp spec fn unicode_alphabetic(c: char) -> bool;

/// What `char::is_whitespace` returns for a character: whether it has
/// Unicode's `White_Space` property. The tables are std's; nothing is claimed
/// of any single character.
pub uninterp spec fn unicode_whitespace(c: char) -> bool;

/// `char::is_alphabetic` returns the same for the same character, whenever
/// it is asked: [`unicode_alphabetic`] names that result.
pub assume_specification[ char::is_alphabetic ](c: char) -> (alphabetic: bool)
    ensures
        alphabetic == unicode_alphabetic(c),
;

/// `char::is_whitespace` returns the same for the same character, whenever
/// it is asked: [`unicode_whitespace`] names that result.
pub assume_specification[ char::is_whitespace ](c: char) -> (whitespace: bool)
    ensures
        whitespace == unicode_whitespace(c),
;

/// The character that stands for a digit from 0 to 9.
pub open spec fn digit_char(digit: nat) -> char {
    if digit == 0 {
        '0'
    } else if digit == 1 {
        '1'
    } else if digit == 2 {
        '2'
    } else if digit == 3 {
        '3'
    } else if digit == 4 {
        '4'
    } else if digit == 5 {
        '5'
    } else if digit == 6 {
        '6'
    } else if digit == 7 {
        '7'
    } else if digit == 8 {
        '8'
    } else {
        '9'
    }
}

/// The decimal numeral of a number: its digits, the most significant first,
/// with no leading zero but for zero itself.
pub open spec fn decimal(n: nat) -> Seq<char>
    decreases n,
{
    if n < 10 {
        seq![digit_char(n)]
    } else {
        decimal(n / 10).push(digit_char(n % 10))
    }
}

/// A result whose two sides are strings, as the characters they hold.
pub open spec fn text_result(result: Result<String, String>) -> Result<Seq<char>, Seq<char>> {
    match result {
        Ok(text) => Ok(text@),
        Err(reason) => Err(reason@),
    }
}

fn digit(value: usize) -> (c: char)
    requires
        value < 10,
    ensures
        c == digit_char(value as nat),
{
    if value == 0 {
        '0'
    } else if value == 1 {
        '1'
    } else if value == 2 {
        '2'
    } else if value == 3 {
        '3'
    } else if value == 4 {
        '4'
    } else if value == 5 {
        '5'
    } else if value == 6 {
        '6'
    } else if value == 7 {
        '7'
    } else if value == 8 {
        '8'
    } else {
        '9'
    }
}

/// Appends the decimal numeral of `n` to `text`.
pub fn push_decimal(text: &mut String, n: usize)
    ensures
        final(text)@ == old(text)@ + decimal(n as nat),
    decreases n,
{
    if n >= 10 {
        push_decimal(text, n / 10);
    }
    text.push(digit(n % 10));
}

/// The decimal numeral of `n` as a string.
pub fn decimal_string(n: usize) -> (text: String)
    ensures
        text@ == decimal(n as nat),
{
    let mut text = String::new();
    push_decimal(&mut text, n);
    text
}

/// The characters of a string, in order.
pub fn characters(text: &str) -> (chars: Vec<char>)
    ensures
        chars@ == text@,
{
    broadcast use vstd::string::group_string_axioms;

    let mut chars: Vec<char> = Vec::new();
    let mut rest = text.chars();
    loop
        invariant
            chars@ + rest.remaining() == text@,
            rest.decrease() is Some,
        ensures
            chars@ == text@,
        decreases rest.decrease()->0,
    {
        match rest.next() {
            Some(c) => {
                chars.push(c);
            },
            None => {
                break ;
            },
        }
    }
    chars
}

} // verus!
