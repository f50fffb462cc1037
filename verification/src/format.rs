//! The two layouts of an NHI number.

use vstd::prelude::*;
use crate::alphabet::{is_digit, is_digit_char, is_letter, is_letter_char};

verus! {

/// Which of the two layouts a string has.
#[derive(Clone, Copy, Debug, PartialEq, Eq, Structural)]
pub enum NhiFormat {
    /// Three letters, then four digits.
    Old,
    /// Three letters, then two digits, then two letters.
    New,
}

/// Seven characters: three letters of the NHI alphabet, then four digits.
pub open spec fn matches_old(s: Seq<char>) -> bool {
    &&& s.len() == 7
    &&& is_letter(s[0])
    &&& is_letter(s[1])
    &&& is_letter(s[2])
    &&& is_digit(s[3])
    &&& is_digit(s[4])
    &&& is_digit(s[5])
    &&& is_digit(s[6])
}

/// Seven characters: three letters of the NHI alphabet, two digits, and two
/// more letters of the alphabet.
pub open spec fn matches_new(s: Seq<char>) -> bool {
    &&& s.len() == 7
    &&& is_letter(s[0])
    &&& is_letter(s[1])
    &&& is_letter(s[2])
    &&& is_digit(s[3])
    &&& is_digit(s[4])
    &&& is_letter(s[5])
    &&& is_letter(s[6])
}

/// The layout of a string, if it has one. Case is not folded here: a lower
/// case letter is no letter of the alphabet.
pub open spec fn format_of(s: Seq<char>) -> Option<NhiFormat> {
    if matches_old(s) {
        Some(NhiFormat::Old)
    } else if matches_new(s) {
        Some(NhiFormat::New)
    } else {
        None
    }
}

/// Tells which layout `s` has, position by position.
pub fn classify(s: &str) -> (r: Option<NhiFormat>)
    ensures
        r == format_of(s@),
{
    if s.unicode_len() != 7 {
        return None;
    }
    if !(is_letter_char(s.get_char(0)) && is_letter_char(s.get_char(1)) && is_letter_char(
        s.get_char(2),
    )) {
        return None;
    }
    if !(is_digit_char(s.get_char(3)) && is_digit_char(s.get_char(4))) {
        return None;
    }
    let sixth = s.get_char(5);
    let seventh = s.get_char(6);
    if is_digit_char(sixth) && is_digit_char(seventh) {
        Some(NhiFormat::Old)
    } else if is_letter_char(sixth) && is_letter_char(seventh) {
        Some(NhiFormat::New)
    } else {
        None
    }
}

} // verus!
