//! Texts: the few operations on strings that the codec needs.

use vstd::prelude::*;

verus! {

/// `String::push`: appends one character to a string.
pub assume_specification[ std::string::String::push ](text: &mut std::string::String, ch: char)
    ensures
        final(text)@ == old(text)@.push(ch),
;

/// Whether two texts are the same.
pub fn same_text(a: &str, b: &str) -> (same: bool)
    ensures
        same == (a@ == b@),
{
    a.to_owned() == b.to_owned()
}

/// The character for a digit below ten.
pub open spec fn digit_char(digit: int) -> char {
    ('0' as u8 + digit) as char
}

/// A natural number written in base ten, without leading zeros.
pub open spec fn decimal(number: nat) -> Seq<char>
    decreases number,
{
    if number < 10 {
        seq![digit_char(number as int)]
    } else {
        decimal(number / 10).push(digit_char((number % 10) as int))
    }
}

/// An integer written in base ten, with a minus sign where it is negative.
pub open spec fn signed_decimal(number: int) -> Seq<char> {
    if number < 0 {
        seq!['-'] + decimal((-number) as nat)
    } else {
        decimal(number as nat)
    }
}

/// Appends `number`, written in base ten, to `text`.
pub fn push_decimal(text: &mut String, number: u32)
    ensures
        final(text)@ == old(text)@ + decimal(number as nat),
    decreases number,
{
    if number >= 10 {
        push_decimal(text, number / 10);
    }
    let digit: u8 = (number % 10) as u8;
    text.push((48u8 + digit) as char);
    proof {
        assert('0' as u8 == 48u8);
        assert(text@ =~= old(text)@ + decimal(number as nat));
    }
}

} // verus!
