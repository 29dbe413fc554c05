//! Dice, drawn from the terminal library's random number generator.

use vstd::prelude::*;

verus! {

/// The terminal library's random number generator, declared so that its
/// values can pass through verified code.
#[verifier::external_type_specification]
#[verifier::external_body]
pub struct ExRandomNumberGenerator(rltk::RandomNumberGenerator);

/// Relies on `rltk::RandomNumberGenerator::new`: a fresh generator, seeded
/// from the machine's entropy; nothing is promised of what it will deal.
#[verifier::external_body]
pub fn new_rng() -> rltk::RandomNumberGenerator {
    rltk::RandomNumberGenerator::new()
}

/// Relies on `rltk::RandomNumberGenerator::roll_dice`: the sum of `n` dice
/// of `die_type` sides, each counting one up to `die_type`.
#[verifier::external_body]
pub fn roll_dice(rng: &mut rltk::RandomNumberGenerator, n: i32, die_type: i32) -> (r: i32)
    requires
        1 <= n,
        1 <= die_type < i32::MAX,
        n * die_type <= i32::MAX,
    ensures
        n <= r <= n * die_type,
{
    rng.roll_dice(n, die_type)
}

} // verus!
