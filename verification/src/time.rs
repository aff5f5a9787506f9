//! The timestamp that entities carry.

use vstd::prelude::*;

verus! {

/// `chrono::NaiveDateTime`, a calendar date with a time of day; entities hold
/// theirs in UTC. The library moves such values from one entity into another
/// and never looks inside them.
#[verifier::external_type_specification]
#[verifier::external_body]
pub struct ExNaiveDateTime(chrono::NaiveDateTime);

/// `Clone::clone` of `chrono::NaiveDateTime`, which is a `Copy` type: the clone
/// is the value itself.
pub assume_specification[ <chrono::NaiveDateTime as Clone>::clone ](
    t: &chrono::NaiveDateTime,
) -> (r: chrono::NaiveDateTime)
    ensures
        r == *t,
;

} // verus!
