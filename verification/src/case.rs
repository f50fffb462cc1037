//! ASCII case folding of characters and strings.

use vstd::prelude::*;

verus! {

/// The upper case form of an ASCII lower case letter; any other character
/// is left as it is.
pub open spec fn upper_char(c: char) -> char {
    if 'a' <= c <= 'z' {
        (c as int - 32) as char
    } else {
        c
    }
}

/// The lower case form of an ASCII upper case letter; any other character
/// is left as it is.
pub open spec fn lower_char(c: char) -> char {
    if 'A' <= c <= 'Z' {
        (c as int + 32) as char
    } else {
        c
    }
}

/// A string with each of its characters folded to upper case.
pub open spec fn to_upper(s: Seq<char>) -> Seq<char> {
    Seq::new(s.len(), |i: int| upper_char(s[i]))
}

/// A string with each of its characters folded to lower case.
pub open spec fn to_lower(s: Seq<char>) -> Seq<char> {
    Seq::new(s.len(), |i: int| lower_char(s[i]))
}

/// Calls `str::to_ascii_uppercase` of the standard library. It is taken to
/// return a string of as many characters as `s` has, in which `a` to `z`
/// have become `A` to `Z` and every other character, non-ASCII ones
/// included, is the one that `s` has in that place.
#[verifier::external_body]
pub(crate) fn ascii_uppercase(s: &str) -> (r: String)
    ensures
        r@ == to_upper(s@),
{
    s.to_ascii_uppercase()
}

/// Folding to upper case a second time changes nothing.
pub proof fn lemma_upper_idempotent(s: Seq<char>)
    ensures
        to_upper(to_upper(s)) == to_upper(s),
{
    assert(to_upper(to_upper(s)) =~= to_upper(s));
}

/// Upper case does not depend on the case that the string had before.
pub proof fn lemma_upper_of_lower(s: Seq<char>)
    ensures
        to_upper(to_lower(s)) == to_upper(s),
{
    assert(to_upper(to_lower(s)) =~= to_upper(s));
}

/// Folding goes character by character: it commutes with appending one.
pub proof fn lemma_upper_push(s: Seq<char>, c: char)
    ensures
        to_upper(s.push(c)) == to_upper(s).push(upper_char(c)),
{
    assert(to_upper(s.push(c)) =~= to_upper(s).push(upper_char(c)));
}

} // verus!
