//! The order of identifiers: that of their primary names, byte by byte.

use std::cmp::Ordering;
use vstd::prelude::*;
use vstd::utf8::{encode_utf8, encode_utf8_decode_utf8};
use crate::control::Identifier;

verus! {

/// Whether `left` comes strictly before `right` in the order of the
/// dictionary: a sequence comes before each of its proper extensions, and
/// otherwise the first place where the two differ decides.
pub open spec fn bytes_before(left: Seq<u8>, right: Seq<u8>) -> bool
    decreases left.len(),
{
    if right.len() == 0 {
        false
    } else if left.len() == 0 {
        true
    } else if left[0] != right[0] {
        left[0] < right[0]
    } else {
        bytes_before(left.drop_first(), right.drop_first())
    }
}

/// Whether the name `left` comes strictly before the name `right`: the
/// order of their UTF-8 bytes.
pub open spec fn name_before(left: Seq<char>, right: Seq<char>) -> bool {
    bytes_before(encode_utf8(left), encode_utf8(right))
}

/// Whether `left` comes strictly before `right`; see [`bytes_before`].
pub fn bytes_precede(left: &[u8], right: &[u8]) -> (before: bool)
    ensures
        before == bytes_before(left@, right@),
{
    let mut at: usize = 0;
    proof {
        assert(left@.skip(0) =~= left@);
        assert(right@.skip(0) =~= right@);
    }
    loop
        invariant
            at <= left@.len(),
            at <= right@.len(),
            bytes_before(left@, right@) == bytes_before(left@.skip(at as int), right@.skip(at as int)),
        decreases left@.len() - at,
    {
        if at == right.len() {
            return false;
        }
        if at == left.len() {
            return true;
        }
        if left[at] != right[at] {
            return left[at] < right[at];
        }
        proof {
            assert(left@.skip(at as int).drop_first() =~= left@.skip(at as int + 1));
            assert(right@.skip(at as int).drop_first() =~= right@.skip(at as int + 1));
        }
        at += 1;
    }
}

/// Nothing comes before itself, and of two sequences at most one comes
/// before the other.
pub proof fn bytes_before_is_asymmetric(left: Seq<u8>, right: Seq<u8>)
    ensures
        !(bytes_before(left, right) && bytes_before(right, left)),
    decreases left.len(),
{
    if left.len() > 0 && right.len() > 0 && left[0] == right[0] {
        bytes_before_is_asymmetric(left.drop_first(), right.drop_first());
    }
}

/// Two sequences of which neither comes before the other are equal.
pub proof fn bytes_before_is_total(left: Seq<u8>, right: Seq<u8>)
    ensures
        bytes_before(left, right) || bytes_before(right, left) || left == right,
    decreases left.len(),
{
    if left.len() > 0 && right.len() > 0 && left[0] == right[0] {
        bytes_before_is_total(left.drop_first(), right.drop_first());
        if left.drop_first() == right.drop_first() {
            assert(left =~= seq![left[0]] + left.drop_first());
            assert(right =~= seq![right[0]] + right.drop_first());
        }
    } else if left.len() == 0 && right.len() == 0 {
        assert(left =~= right);
    }
}

/// What comes before something that comes before a third comes before the
/// third.
pub proof fn bytes_before_is_transitive(first: Seq<u8>, second: Seq<u8>, third: Seq<u8>)
    requires
        bytes_before(first, second),
        bytes_before(second, third),
    ensures
        bytes_before(first, third),
    decreases first.len(),
{
    if first.len() > 0 && first[0] == second[0] && second[0] == third[0] {
        bytes_before_is_transitive(first.drop_first(), second.drop_first(), third.drop_first());
    }
}

/// Of two names exactly one holds: the first comes before the second, the
/// second before the first, or they are the same name.
pub proof fn names_are_totally_ordered(left: Seq<char>, right: Seq<char>)
    ensures
        name_before(left, right) || name_before(right, left) || left == right,
        !(name_before(left, right) && name_before(right, left)),
        left == right ==> !name_before(left, right),
{
    bytes_before_is_total(encode_utf8(left), encode_utf8(right));
    bytes_before_is_asymmetric(encode_utf8(left), encode_utf8(right));
    bytes_before_is_asymmetric(encode_utf8(left), encode_utf8(left));
    encode_utf8_decode_utf8(left);
    encode_utf8_decode_utf8(right);
}

/// Where a first name comes before a second, and the second before a third,
/// the first comes before the third.
pub proof fn names_are_transitively_ordered(first: Seq<char>, second: Seq<char>, third: Seq<char>)
    requires
        name_before(first, second),
        name_before(second, third),
    ensures
        name_before(first, third),
{
    bytes_before_is_transitive(encode_utf8(first), encode_utf8(second), encode_utf8(third));
}

impl Identifier {
    /// Whether this identifier comes strictly before `other`. Only the
    /// primary names are looked at.
    pub fn precedes(&self, other: &Identifier) -> (before: bool)
        ensures
            before == name_before(self@.name, other@.name),
    {
        bytes_precede(self.name().as_bytes(), other.name().as_bytes())
    }
}

impl PartialOrd for Identifier {
    fn partial_cmp(&self, other: &Identifier) -> (order: Option<Ordering>) {
        if self.precedes(other) {
            Some(Ordering::Less)
        } else if other.precedes(self) {
            Some(Ordering::Greater)
        } else {
            Some(Ordering::Equal)
        }
    }
}

impl vstd::std_specs::cmp::PartialOrdSpecImpl for Identifier {
    open spec fn obeys_partial_cmp_spec() -> bool {
        true
    }

    open spec fn partial_cmp_spec(&self, other: &Identifier) -> Option<Ordering> {
        if name_before(self@.name, other@.name) {
            Some(Ordering::Less)
        } else if name_before(other@.name, self@.name) {
            Some(Ordering::Greater)
        } else {
            Some(Ordering::Equal)
        }
    }
}

} // verus!
