//! The source of randomness: the generator that the `rand` crate keeps for
//! each thread. Nothing in this module is proved; the contracts below are
//! taken from `rand`'s documentation and source.

use rand::Rng;
use vstd::prelude::*;

verus! {

/// `rand::rngs::ThreadRng`, a handle to the calling thread's generator.
/// Its state is hidden: no contract speaks of what a handle holds.
#[verifier::external_type_specification]
#[verifier::external_body]
pub struct ExThreadRng(rand::rngs::ThreadRng);

/// `rand::thread_rng`: hands out a handle to the calling thread's generator,
/// seeding the generator from the operating system on first use. Nothing is
/// claimed of the handle.
pub assume_specification[ rand::thread_rng ]() -> (rng: rand::rngs::ThreadRng);

/// `Rng::gen_range` on the inclusive range `low..=high` of `i64`. `rand`
/// panics on an empty range, hence the precondition; the value it returns
/// lies in the range, both ends included. Which value is not determined.
#[verifier::external_body]
pub(crate) fn pick_between(rng: &mut rand::rngs::ThreadRng, low: i64, high: i64) -> (picked: i64)
    requires
        low <= high,
    ensures
        low <= picked <= high,
{
    rng.gen_range(low..=high)
}

/// `Rng::gen_ratio`: `true` with probability `numerator / denominator`.
/// `rand` panics on a zero denominator and on a ratio above one, hence the
/// precondition. It documents two certain outcomes: always `true` when the
/// two numbers are equal, always `false` when the numerator is zero. Of any
/// other ratio the outcome is not determined.
#[verifier::external_body]
pub(crate) fn pick_ratio(rng: &mut rand::rngs::ThreadRng, numerator: u32, denominator: u32) -> (hit: bool)
    requires
        denominator != 0,
        numerator <= denominator,
    ensures
        numerator == denominator ==> hit,
        numerator == 0 ==> !hit,
{
    rng.gen_ratio(numerator, denominator)
}

} // verus!
