//! The characters an NHI number is written with, and their numeric codes.

use vstd::prelude::*;

verus! {

/// A decimal digit, `0` to `9`.
pub open spec fn is_digit(c: char) -> bool {
    '0' <= c <= '9'
}

/// A letter that may stand in an NHI number: `A` to `Z` without `I` and `O`.
pub open spec fn is_letter(c: char) -> bool {
    'A' <= c <= 'Z' && c != 'I' && c != 'O'
}

/// The 24 letters of the NHI alphabet, in the order that gives each its code.
pub open spec fn letter_sequence() -> Seq<char> {
    seq![
        'A', 'B', 'C', 'D', 'E', 'F', 'G', 'H', 'J', 'K', 'L', 'M',
        'N', 'P', 'Q', 'R', 'S', 'T', 'U', 'V', 'W', 'X', 'Y', 'Z',
    ]
}

/// The numeric code of a character: a digit stands for its own value, a letter
/// for its position, counted from 1, in [`letter_sequence`].
pub open spec fn char_code_spec(c: char) -> int {
    if is_digit(c) {
        c as int - '0' as int
    } else {
        letter_sequence().index_of(c) + 1
    }
}

/// Whether a digit has been read.
pub fn is_digit_char(c: char) -> (r: bool)
    ensures
        r == is_digit(c),
{
    '0' <= c && c <= '9'
}

/// Whether a letter of the NHI alphabet has been read.
pub fn is_letter_char(c: char) -> (r: bool)
    ensures
        r == is_letter(c),
{
    'A' <= c && c <= 'Z' && c != 'I' && c != 'O'
}

/// For a letter of the alphabet, the code is the letter's place among `A` to
/// `Z`, less one past `I` and less one more past `O`.
pub proof fn lemma_letter_code(c: char)
    requires
        is_letter(c),
    ensures
        char_code_spec(c) == c as int - 64 - (if 'I' < c { 1int } else { 0 }) - (if 'O' < c { 1int } else { 0 }),
        1 <= char_code_spec(c) <= 24,
        letter_sequence()[char_code_spec(c) - 1] == c,
{
    let k = c as int - 65 - (if 'I' < c { 1int } else { 0 }) - (if 'O' < c { 1int } else { 0 });
    assert(letter_sequence()[k] == c);
}

/// The numeric code of a digit or of a letter of the NHI alphabet.
pub fn char_code(c: char) -> (code: u32)
    requires
        is_digit(c) || is_letter(c),
    ensures
        code == char_code_spec(c),
{
    let n: u32 = c as u32;
    if is_digit_char(c) {
        n - 48
    } else {
        proof {
            lemma_letter_code(c);
        }
        let past_i: u32 = if 'I' < c { 1 } else { 0 };
        let past_o: u32 = if 'O' < c { 1 } else { 0 };
        n - 64 - past_i - past_o
    }
}

} // verus!
