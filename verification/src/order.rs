//! The order of NHI numbers: that of their strings.

use std::cmp::Ordering;
use vstd::prelude::*;
use vstd::std_specs::cmp::PartialOrdSpecImpl;
use crate::nhi::NHI;

verus! {

/// `i` is the first place at which both strings have a character and the
/// two characters differ.
pub open spec fn first_difference_at(a: Seq<char>, b: Seq<char>, i: int) -> bool {
    &&& 0 <= i < a.len()
    &&& i < b.len()
    &&& a[i] != b[i]
    &&& forall|j: int| 0 <= j < i ==> a[j] == b[j]
}

/// How `a` and `b` compare from place `i` on, character by character: the
/// first place where they differ decides, and where one string ends first
/// it is the lesser.
pub open spec fn order_from(a: Seq<char>, b: Seq<char>, i: int) -> Ordering
    decreases a.len() - i,
{
    if i < 0 || (i >= a.len() && i >= b.len()) {
        Ordering::Equal
    } else if i >= a.len() {
        Ordering::Less
    } else if i >= b.len() {
        Ordering::Greater
    } else if a[i] < b[i] {
        Ordering::Less
    } else if a[i] > b[i] {
        Ordering::Greater
    } else {
        order_from(a, b, i + 1)
    }
}

/// The lexicographic order of two strings.
pub open spec fn lex_order(a: Seq<char>, b: Seq<char>) -> Ordering {
    order_from(a, b, 0)
}

/// Places at which the strings agree do not enter the comparison.
proof fn lemma_skip_agreeing(a: Seq<char>, b: Seq<char>, from: int, to: int)
    requires
        0 <= from <= to,
        to <= a.len(),
        to <= b.len(),
        forall|j: int| from <= j < to ==> a[j] == b[j],
    ensures
        order_from(a, b, from) == order_from(a, b, to),
    decreases to - from,
{
    if from < to {
        lemma_skip_agreeing(a, b, from + 1, to);
    }
}

/// The first place at which two strings differ decides their order.
pub proof fn lemma_first_difference_decides(a: Seq<char>, b: Seq<char>)
    ensures
        forall|i: int| #[trigger]
            first_difference_at(a, b, i) ==> lex_order(a, b) == if a[i] < b[i] {
                Ordering::Less
            } else {
                Ordering::Greater
            },
{
    assert forall|i: int| #[trigger] first_difference_at(a, b, i) implies lex_order(a, b) == if a[i]
        < b[i] {
        Ordering::Less
    } else {
        Ordering::Greater
    } by {
        lemma_skip_agreeing(a, b, 0, i);
    }
}

/// Two strings compare as equal exactly when they are the same string.
pub proof fn lemma_order_equal(a: Seq<char>, b: Seq<char>)
    ensures
        lex_order(a, b) == Ordering::Equal <==> a == b,
{
    if a == b {
        lemma_same_is_equal(a, 0);
    }
    if lex_order(a, b) == Ordering::Equal {
        lemma_equal_means_same(a, b, 0);
    }
}

/// A string compares as equal to itself, from any place on.
proof fn lemma_same_is_equal(a: Seq<char>, i: int)
    ensures
        order_from(a, a, i) == Ordering::Equal,
    decreases a.len() - i,
{
    if 0 <= i < a.len() {
        lemma_same_is_equal(a, i + 1);
    }
}

/// Strings that agree before place `i` and compare as equal from there on
/// are the same string.
proof fn lemma_equal_means_same(a: Seq<char>, b: Seq<char>, i: int)
    requires
        0 <= i <= a.len(),
        i <= b.len(),
        forall|j: int| 0 <= j < i ==> a[j] == b[j],
        order_from(a, b, i) == Ordering::Equal,
    ensures
        a == b,
    decreases a.len() - i,
{
    if i >= a.len() && i >= b.len() {
        assert(a =~= b);
    } else if i < a.len() && i < b.len() {
        lemma_equal_means_same(a, b, i + 1);
    }
}

/// Finds the first place at which two strings of seven characters differ.
fn first_difference(a: &str, b: &str) -> (r: Option<usize>)
    requires
        a@.len() == 7,
        b@.len() == 7,
    ensures
        match r {
            Some(i) => first_difference_at(a@, b@, i as int),
            None => a@ == b@,
        },
{
    let mut i: usize = 0;
    while i < 7
        invariant
            i <= 7,
            a@.len() == 7,
            b@.len() == 7,
            forall|j: int| 0 <= j < i ==> a@[j] == b@[j],
        decreases 7 - i,
    {
        if a.get_char(i) != b.get_char(i) {
            return Some(i);
        }
        i = i + 1;
    }
    assert(a@ =~= b@);
    None
}

impl PartialOrd for NHI {
    fn partial_cmp(&self, other: &NHI) -> (r: Option<Ordering>) {
        let a = self.as_str();
        let b = other.as_str();
        proof {
            lemma_first_difference_decides(a@, b@);
            lemma_order_equal(a@, b@);
        }
        match first_difference(a, b) {
            Some(i) => if a.get_char(i) < b.get_char(i) {
                Some(Ordering::Less)
            } else {
                Some(Ordering::Greater)
            },
            None => Some(Ordering::Equal),
        }
    }
}

impl PartialOrdSpecImpl for NHI {
    open spec fn obeys_partial_cmp_spec() -> bool {
        true
    }

    /// Numbers are ordered as their strings are.
    open spec fn partial_cmp_spec(&self, other: &NHI) -> Option<Ordering> {
        Some(lex_order(self@, other@))
    }
}

} // verus!
