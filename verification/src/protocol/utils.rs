//! Helpers for the default values of serialized fields.
use vstd::prelude::*;

verus! {

/// Used purely for skipping serialization of values that are false by default.
pub fn is_false(value: &bool) -> (r: bool)
    ensures
        r == !*value,
{
    !*value
}

/// Used purely for skipping serialization of values that are 1 by default.
pub fn is_one(value: &usize) -> (r: bool)
    ensures
        r == (*value == 1),
{
    *value == 1
}

/// Used to provide a default serde value of 1.
pub fn one() -> (r: usize)
    ensures
        r == 1,
{
    1
}

} // verus!
