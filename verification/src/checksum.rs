//! The weighted sum over the first six characters, and the check character
//! that each format derives from it.

use vstd::prelude::*;
use crate::alphabet::{char_code, char_code_spec, is_digit, is_letter, lemma_letter_code};

verus! {

/// The sum over the first `n` characters of `s`, each character's code times
/// its weight. The weight of the first character is 7, and each later
/// character weighs one less than the one before it.
pub open spec fn weighted_sum(s: Seq<char>, n: nat) -> int
    decreases n,
{
    if n == 0 {
        0
    } else {
        weighted_sum(s, (n - 1) as nat) + char_code_spec(s[n - 1]) * (8 - n)
    }
}

/// How many characters of a string of `len` characters enter the checksum.
pub open spec fn summed_len(len: nat) -> nat {
    if len < 6 {
        len
    } else {
        6
    }
}

/// The checksum of a string: the weighted sum over its first six characters,
/// or over all of them where it has fewer.
pub open spec fn checksum_spec(s: Seq<char>) -> int {
    weighted_sum(s, summed_len(s.len()))
}

/// The check digit that the old format asks for, as a number. A sum that is
/// a multiple of 11 has none.
pub open spec fn old_check_digit_spec(sum: int) -> Option<int> {
    if sum % 11 == 0 {
        None
    } else {
        Some((11 - sum % 11) % 10)
    }
}

/// The code of the check letter that the new format asks for.
pub open spec fn new_check_value_spec(sum: int) -> int {
    23 - sum % 23
}

/// The code of a character of the alphabet lies between 0 and 24.
pub proof fn lemma_code_bounds(c: char)
    requires
        is_digit(c) || is_letter(c),
    ensures
        0 <= char_code_spec(c) <= 24,
{
    if !is_digit(c) {
        lemma_letter_code(c);
    }
}

/// Written out, the checksum of a string of six or more characters is
/// seven times the first code, six times the second, and so on down to
/// twice the sixth.
pub proof fn lemma_checksum_terms(s: Seq<char>)
    requires
        s.len() >= 6,
    ensures
        checksum_spec(s) == 7 * char_code_spec(s[0]) + 6 * char_code_spec(s[1]) + 5
            * char_code_spec(s[2]) + 4 * char_code_spec(s[3]) + 3 * char_code_spec(s[4]) + 2
            * char_code_spec(s[5]),
{
    reveal_with_fuel(weighted_sum, 7);
}

/// The checksum reads the first six characters only.
pub proof fn lemma_checksum_of_prefix(s: Seq<char>, t: Seq<char>)
    requires
        s.len() >= 6,
        t.len() >= 6,
        forall|i: int| 0 <= i < 6 ==> s[i] == t[i],
    ensures
        checksum_spec(s) == checksum_spec(t),
{
    lemma_checksum_terms(s);
    lemma_checksum_terms(t);
}

/// Computes the checksum of `nhi`. Each character that enters the sum has to
/// be a digit or a letter of the NHI alphabet.
pub fn checksum(nhi: &str) -> (sum: u32)
    requires
        forall|i: int|
            0 <= i < summed_len(nhi@.len()) ==> is_digit(#[trigger] nhi@[i]) || is_letter(nhi@[i]),
    ensures
        sum == checksum_spec(nhi@),
{
    let len = nhi.unicode_len();
    let limit: usize = if len < 6 { len } else { 6 };
    let mut sum: u32 = 0;
    let mut i: usize = 0;
    while i < limit
        invariant
            i <= limit <= 6,
            limit == summed_len(nhi@.len()),
            forall|j: int|
                0 <= j < limit ==> is_digit(#[trigger] nhi@[j]) || is_letter(nhi@[j]),
            sum == weighted_sum(nhi@, i as nat),
            sum <= 168 * i,
        decreases limit - i,
    {
        let c = nhi.get_char(i);
        proof {
            lemma_code_bounds(c);
        }
        let weight: u32 = 7 - i as u32;
        assert(char_code_spec(c) * weight <= 168) by (nonlinear_arith)
            requires
                0 <= char_code_spec(c) <= 24,
                0 <= weight <= 7,
        ;
        sum = sum + char_code(c) * weight;
        i = i + 1;
    }
    sum
}

/// The old format's check digit for a checksum, or `None` where the checksum
/// is a multiple of 11 and no digit completes the number.
pub fn old_check_digit(sum: u32) -> (digit: Option<u32>)
    ensures
        match digit {
            Some(d) => old_check_digit_spec(sum as int) == Some(d as int),
            None => old_check_digit_spec(sum as int) is None,
        },
{
    let remainder: u32 = sum % 11;
    if remainder == 0 {
        None
    } else {
        Some((11 - remainder) % 10)
    }
}

/// The code of the new format's check letter for a checksum.
pub fn new_check_value(sum: u32) -> (value: u32)
    ensures
        value == new_check_value_spec(sum as int),
        1 <= value <= 23,
{
    23 - sum % 23
}

} // verus!
