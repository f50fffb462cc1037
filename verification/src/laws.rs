//! What holds of parsing on every input.

use vstd::prelude::*;
use crate::alphabet::{char_code_spec, is_digit, is_letter, lemma_letter_code, letter_sequence};
use crate::case::{
    lemma_upper_idempotent, lemma_upper_of_lower, lemma_upper_push, to_lower, to_upper, upper_char,
};
use crate::checksum::{checksum_spec, lemma_checksum_of_prefix};
use crate::nhi::{is_nhi_spec, parse_spec, well_formed};

verus! {

/// The first six characters of an old format number: three letters of the
/// NHI alphabet, then three digits.
pub open spec fn is_old_prefix(p: Seq<char>) -> bool {
    &&& p.len() == 6
    &&& is_letter(p[0])
    &&& is_letter(p[1])
    &&& is_letter(p[2])
    &&& is_digit(p[3])
    &&& is_digit(p[4])
    &&& is_digit(p[5])
}

/// The first six characters of a new format number: three letters of the
/// NHI alphabet, two digits, and one more letter.
pub open spec fn is_new_prefix(p: Seq<char>) -> bool {
    &&& p.len() == 6
    &&& is_letter(p[0])
    &&& is_letter(p[1])
    &&& is_letter(p[2])
    &&& is_digit(p[3])
    &&& is_digit(p[4])
    &&& is_letter(p[5])
}

/// The digit that completes an old format prefix whose checksum is no
/// multiple of 11.
pub open spec fn old_check_char(p: Seq<char>) -> char {
    ('0' as int + (11 - checksum_spec(p) % 11) % 10) as char
}

/// The letter that completes a new format prefix.
pub open spec fn new_check_char(p: Seq<char>) -> char {
    letter_sequence()[22 - checksum_spec(p) % 23]
}

/// Parsing does not look at case: a string, its upper case form and its
/// lower case form are all rejected, or all parse to the same number.
pub proof fn lemma_case_insensitive(s: Seq<char>)
    ensures
        parse_spec(to_upper(s)) == parse_spec(s),
        parse_spec(to_lower(s)) == parse_spec(s),
{
    lemma_upper_idempotent(s);
    lemma_upper_of_lower(s);
}

/// An NHI number parses to its own upper case form, and that form, parsed
/// again, gives the same number.
pub proof fn lemma_round_trip(v: Seq<char>)
    requires
        is_nhi_spec(v),
    ensures
        parse_spec(v) == Some(to_upper(v)),
        parse_spec(to_upper(v)) == Some(to_upper(v)),
{
    lemma_upper_idempotent(v);
}

/// A well-formed string is seven characters long, is its own upper case
/// form, and parses to itself.
pub proof fn lemma_well_formed_is_normal(w: Seq<char>)
    requires
        well_formed(w),
    ensures
        w.len() == 7,
        forall|i: int| 0 <= i < 7 ==> is_digit(#[trigger] w[i]) || is_letter(w[i]),
        to_upper(w) == w,
        parse_spec(w) == Some(w),
{
    assert(to_upper(w) =~= w);
}

/// An old format prefix whose checksum is no multiple of 11 is completed to
/// an NHI number by one digit, and by no other character.
pub proof fn lemma_old_check_digit_unique(p: Seq<char>)
    requires
        is_old_prefix(to_upper(p)),
        checksum_spec(to_upper(p)) % 11 != 0,
    ensures
        is_digit(old_check_char(to_upper(p))),
        forall|c: char| #[trigger] is_nhi_spec(p.push(c)) <==> c == old_check_char(to_upper(p)),
{
    let u = to_upper(p);
    assert forall|c: char| #[trigger] is_nhi_spec(p.push(c)) <==> c == old_check_char(u) by {
        let full = u.push(upper_char(c));
        lemma_upper_push(p, c);
        lemma_checksum_of_prefix(full, u);
    }
}

/// Where the checksum of the first six characters is a multiple of 11, no
/// trailing digit makes an NHI number.
pub proof fn lemma_zero_checksum_rejected(p: Seq<char>, d: char)
    requires
        p.len() == 6,
        is_digit(d),
        checksum_spec(to_upper(p)) % 11 == 0,
    ensures
        !is_nhi_spec(p.push(d)),
{
    let u = to_upper(p);
    lemma_upper_push(p, d);
    lemma_checksum_of_prefix(u.push(d), u);
}

/// A new format prefix is completed to an NHI number by one letter of the
/// alphabet, in either case, and by no other character.
pub proof fn lemma_new_check_letter_unique(p: Seq<char>)
    requires
        is_new_prefix(to_upper(p)),
    ensures
        is_letter(new_check_char(to_upper(p))),
        forall|c: char| #[trigger]
            is_nhi_spec(p.push(c)) <==> upper_char(c) == new_check_char(to_upper(p)),
{
    let u = to_upper(p);
    let k = 22 - checksum_spec(u) % 23;
    let want = letter_sequence()[k];
    assert(is_letter(want));
    lemma_letter_code(want);
    assert(char_code_spec(want) == k + 1);
    assert forall|c: char| #[trigger] is_nhi_spec(p.push(c)) <==> upper_char(c) == want by {
        let last = upper_char(c);
        let full = u.push(last);
        lemma_upper_push(p, c);
        lemma_checksum_of_prefix(full, u);
        if is_letter(last) {
            lemma_letter_code(last);
        }
    }
}

/// A string that is not seven characters long, or that holds a character
/// which is neither a digit nor, in either case, a letter of the NHI
/// alphabet, is no NHI number.
pub proof fn lemma_malformed_rejected(s: Seq<char>)
    requires
        s.len() != 7 || exists|i: int|
            0 <= i < s.len() && !is_digit(upper_char(#[trigger] s[i])) && !is_letter(
                upper_char(s[i]),
            ),
    ensures
        !is_nhi_spec(s),
{
    if s.len() == 7 {
        let i = choose|i: int|
            0 <= i < s.len() && !is_digit(upper_char(#[trigger] s[i])) && !is_letter(
                upper_char(s[i]),
            );
        assert(to_upper(s)[i] == upper_char(s[i]));
    }
}

} // verus!
