//! A small deterministic pseudo-random step, so that the choice of hidden
//! vowel positions is injectable and reproducible from a seed.

use vstd::prelude::*;

verus! {

/// One step of a linear-congruential generator over 64 bits.
pub open spec fn spec_next_rand(s: u64) -> u64 {
    (((s * 6364136223846793005) + 1442695040888963407) % 0x10000000000000000) as u64
}

pub fn next_rand(s: u64) -> (r: u64)
    ensures
        r == spec_next_rand(s),
{
    let wide: u128 = (s as u128) * 6364136223846793005u128 + 1442695040888963407u128;
    (wide % 0x10000000000000000u128) as u64
}

} // verus!
