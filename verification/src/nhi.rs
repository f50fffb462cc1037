//! The validated NHI number, and the parser that makes it.

use std::str::FromStr;
use vstd::prelude::*;
use vstd::std_specs::cmp::PartialEqSpecImpl;
use crate::alphabet::{char_code, char_code_spec};
use crate::case::{ascii_uppercase, to_upper};
use crate::checksum::{
    checksum, checksum_spec, new_check_value, new_check_value_spec, old_check_digit,
    old_check_digit_spec,
};
use crate::format::{classify, format_of, NhiFormat};

verus! {

/// An upper case string is a well-formed NHI number when it has one of the
/// two layouts and its seventh character is the check character that the
/// layout's rule derives from the first six.
pub open spec fn well_formed(s: Seq<char>) -> bool {
    match format_of(s) {
        Some(NhiFormat::Old) => old_check_digit_spec(checksum_spec(s)) == Some(
            char_code_spec(s[6]),
        ),
        Some(NhiFormat::New) => new_check_value_spec(checksum_spec(s)) == char_code_spec(s[6]),
        None => false,
    }
}

/// A string is an NHI number when its upper case form is well formed.
pub open spec fn is_nhi_spec(s: Seq<char>) -> bool {
    well_formed(to_upper(s))
}

/// What parsing makes of a string: the upper case form of an NHI number, and
/// nothing of any other string.
pub open spec fn parse_spec(s: Seq<char>) -> Option<Seq<char>> {
    if is_nhi_spec(s) {
        Some(to_upper(s))
    } else {
        None
    }
}

/// A valid NHI number. It holds seven upper case characters that are well
/// formed, and cannot be made or changed in any way that breaks this.
#[derive(Debug, Eq, Hash, Ord)]
pub struct NHI(String);

/// The one error of parsing: the string is not an NHI number. Whether the
/// layout or the check character was at fault is not told.
#[derive(Debug)]
pub struct NHIParseError;

impl View for NHI {
    type V = Seq<char>;

    /// The characters of the number.
    closed spec fn view(&self) -> Seq<char> {
        self.0@
    }
}

impl NHI {
    #[verifier::type_invariant]
    closed spec fn inv(&self) -> bool {
        well_formed(self.0@)
    }

    /// Whether the number is one of those set aside for testing, which begin
    /// with `Z`.
    pub open spec fn is_test_spec(&self) -> bool {
        self@[0] == 'Z'
    }

    /// The number as a string slice.
    pub fn as_str(&self) -> (s: &str)
        ensures
            s@ == self@,
            well_formed(s@),
    {
        proof {
            use_type_invariant(self);
        }
        self.0.as_str()
    }

    /// Gives up the number for the string that it holds.
    pub fn into_string(self) -> (s: String)
        ensures
            s@ == self@,
            well_formed(s@),
    {
        proof {
            use_type_invariant(&self);
        }
        self.0
    }

    /// The number as a string of its own, as it is printed.
    pub fn to_string(&self) -> (s: String)
        ensures
            s@ == self@,
            well_formed(s@),
    {
        proof {
            use_type_invariant(self);
        }
        self.0.clone()
    }

    /// `true` if the number is set aside for testing.
    pub fn is_test(&self) -> (r: bool)
        ensures
            r == self.is_test_spec(),
    {
        proof {
            use_type_invariant(self);
        }
        self.0.as_str().get_char(0) == 'Z'
    }

    /// `true` if the number is not set aside for testing.
    pub fn is_not_test(&self) -> (r: bool)
        ensures
            r == !self.is_test_spec(),
    {
        !self.is_test()
    }
}

impl Clone for NHI {
    fn clone(&self) -> (r: NHI)
        ensures
            r@ == self@,
    {
        proof {
            use_type_invariant(self);
        }
        NHI(self.0.clone())
    }
}

impl PartialEq for NHI {
    fn eq(&self, other: &NHI) -> (r: bool) {
        self.0 == other.0
    }
}

impl PartialEqSpecImpl for NHI {
    open spec fn obeys_eq_spec() -> bool {
        true
    }

    /// Two numbers are equal when they have the same characters.
    open spec fn eq_spec(&self, other: &NHI) -> bool {
        self@ == other@
    }
}

impl FromStr for NHI {
    type Err = NHIParseError;

    /// Parses a string, in upper or lower case or both, to the NHI number
    /// that it writes. Succeeds on every NHI number and on nothing else.
    fn from_str(s: &str) -> (r: Result<NHI, NHIParseError>)
        ensures
            match r {
                Ok(nhi) => parse_spec(s@) == Some(nhi@),
                Err(_) => parse_spec(s@) is None,
            },
    {
        let nhi = ascii_uppercase(s);
        let passes = match classify(nhi.as_str()) {
            Some(NhiFormat::Old) => {
                let last = char_code(nhi.as_str().get_char(6));
                match old_check_digit(checksum(nhi.as_str())) {
                    Some(digit) => digit == last,
                    None => false,
                }
            },
            Some(NhiFormat::New) => {
                let last = char_code(nhi.as_str().get_char(6));
                new_check_value(checksum(nhi.as_str())) == last
            },
            None => false,
        };
        if passes {
            Ok(NHI(nhi))
        } else {
            Err(NHIParseError)
        }
    }
}

/// Whether `nhi` is an NHI number, in upper or lower case or both.
pub fn is_nhi(nhi: &str) -> (r: bool)
    ensures
        r == is_nhi_spec(nhi@),
{
    NHI::from_str(nhi).is_ok()
}

} // verus!
