//! Seeds: the defaults of the two runs, and how the seed of a run is split
//! into seeds for its image pairs and their tiles.

use vstd::prelude::*;

verus! {

/// The seed of a grid scan where none is configured.
pub const SPLIT_SEED: u64 = 1776;

/// The seed of a sampling run where none is configured.
pub const OVERSAMPLE_SEED: u64 = 1337;

/// The seed derived from `seed` for the part of a run numbered `salt`:
/// one step of a linear congruential generator whose increment depends on
/// the number.
pub open spec fn mix(seed: u64, salt: u64) -> u64 {
    ((seed * 6364136223846793005 + 2 * salt + 1442695040888963407)
        % 0x1_0000_0000_0000_0000) as u64
}

/// The seed derived from `seed` for the part of a run numbered `salt`.
pub fn derive_seed(seed: u64, salt: u64) -> (derived: u64)
    ensures
        derived == mix(seed, salt),
{
    proof {
        assert(0 <= (seed as int) * 6364136223846793005 <= 0xffff_ffff_ffff_ffff
            * 6364136223846793005) by (nonlinear_arith)
            requires
                0 <= seed <= 0xffff_ffff_ffff_ffff,
        ;
    }
    let product: u128 = (seed as u128) * 6364136223846793005u128;
    let sum: u128 = product + 2 * (salt as u128) + 1442695040888963407u128;
    (sum % 0x1_0000_0000_0000_0000u128) as u64
}

} // verus!
