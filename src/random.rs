//! The kernel's fallback pseudo-random numbers.

use vstd::prelude::*;

verus! {

/// Multiplier of the Park-Miller-Lehmer generator.
pub const PARK_MILLER_LEHMER_MULTIPLIER: u64 = 48271;
/// Modulus of the Park-Miller-Lehmer generator: 2^31 - 1.
pub const PARK_MILLER_LEHMER_MODULUS: u64 = 2147483647;

/// The generator's next state after `seed`.
pub open spec fn spec_park_miller_lehmer(seed: u32) -> u32 {
    ((seed as int * PARK_MILLER_LEHMER_MULTIPLIER as int) % PARK_MILLER_LEHMER_MODULUS as int) as u32
}

/// Advances the generator's state and returns the new state.
pub fn generate_park_miller_lehmer_random_number(seed: &mut u32) -> (r: u32)
    ensures
        r == spec_park_miller_lehmer(*old(seed)),
        *final(seed) == r,
        r < PARK_MILLER_LEHMER_MODULUS,
{
    let product = *seed as u64 * PARK_MILLER_LEHMER_MULTIPLIER;
    let random = (product % PARK_MILLER_LEHMER_MODULUS) as u32;
    *seed = random;
    random
}

/// A random number: the processor's own where it produced one, else the
/// generator's next number (which then advances).
pub fn sys_rand(hardware: Option<u32>, seed: &mut u32) -> (r: u32)
    ensures
        hardware is Some ==> r == hardware->0 && *final(seed) == *old(seed),
        hardware is None ==> r == spec_park_miller_lehmer(*old(seed)) && *final(seed) == r,
{
    match hardware {
        Some(value) => value,
        None => generate_park_miller_lehmer_random_number(seed),
    }
}

} // verus!
