//! The random source that places each gap, taken from bracket-lib.
use vstd::prelude::*;
use bracket_lib::prelude::RandomNumberGenerator;

verus! {

#[verifier::external_type_specification]
#[verifier::external_body]
pub struct ExRandomNumberGenerator(RandomNumberGenerator);

/// Relies on `RandomNumberGenerator::new`: a xorshift generator seeded from
/// `getrandom`, or from the clock where that fails. Nothing is known of the
/// values it will give.
#[verifier::external_body]
pub(crate) fn new_generator() -> (g: RandomNumberGenerator) {
    RandomNumberGenerator::new()
}

/// Relies on `RandomNumberGenerator::range`, which calls rand's `gen_range(min..max)`:
/// a value at least `min` and below `max`; it panics on an empty range, which
/// `requires` leaves out.
#[verifier::external_body]
pub(crate) fn draw_in_range(g: &mut RandomNumberGenerator, min: i32, max: i32) -> (r: i32)
    requires
        min < max,
    ensures
        min <= r < max,
{
    g.range(min, max)
}

} // verus!
