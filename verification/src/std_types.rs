//! Declarations of std types and functions that the library calls without inspecting them.
use vstd::prelude::*;

verus! {

/// `std::path::PathBuf`, carried through as an opaque value.
#[verifier::external_type_specification]
#[verifier::external_body]
pub struct ExPathBuf(std::path::PathBuf);

/// `PathBuf::clone`: the contract claims that the copy is the same path.
pub assume_specification[ <std::path::PathBuf as Clone>::clone ](p: &std::path::PathBuf) -> (r:
    std::path::PathBuf)
    ensures
        r == *p,
;

/// `Duration::clone`: the contract claims that the copy is the same duration (`Duration` is
/// `Copy`).
pub assume_specification[ <core::time::Duration as Clone>::clone ](d: &core::time::Duration) -> (r:
    core::time::Duration)
    ensures
        r == *d,
;

/// `From::from` of a value into its own type (the blanket `impl<T> From<T> for T`): the contract
/// claims that the value is returned unchanged.
pub assume_specification<A>[ <A as core::convert::From<A>>::from ](t: A) -> (r: A)
    ensures
        r == t,
;

/// The duration that `Duration::from_secs` returns for a number of seconds.
pub uninterp spec fn secs_duration(secs: u64) -> core::time::Duration;

/// The duration that `Duration::from_millis` returns for a number of milliseconds.
pub uninterp spec fn millis_duration(millis: u64) -> core::time::Duration;

/// `Duration::from_secs`: the contract claims only that the result is the same for the same
/// number of seconds.
#[verifier::external_body]
pub(crate) fn duration_from_secs(secs: u64) -> (r: core::time::Duration)
    ensures
        r == secs_duration(secs),
{
    core::time::Duration::from_secs(secs)
}

/// `Duration::from_millis`: the contract claims only that the result is the same for the same
/// number of milliseconds.
#[verifier::external_body]
pub(crate) fn duration_from_millis(millis: u64) -> (r: core::time::Duration)
    ensures
        r == millis_duration(millis),
{
    core::time::Duration::from_millis(millis)
}

} // verus!

pub use core::time::Duration;
pub use std::path::PathBuf;
