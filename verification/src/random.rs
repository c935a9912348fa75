//! The calls into the `rand` crate. Every draw is made by a generator that
//! is seeded for that draw, so that a draw is determined by its seed.

use vstd::prelude::*;
use rand::rngs::StdRng;
use rand::{Rng, SeedableRng};

verus! {

/// The indices that `rand::seq::index::sample` hands out for a generator
/// made by `StdRng::seed_from_u64(seed)`.
pub uninterp spec fn drawn_indices(seed: u64, length: usize, amount: usize) -> Seq<usize>;

/// The first number below `bound` that a generator made by
/// `StdRng::seed_from_u64(seed)` hands out through `Rng::gen_range`.
pub uninterp spec fn first_draw(seed: u64, bound: u32) -> u32;

/// `rand::seq::index::sample` on a generator seeded with `seed`: `amount`
/// distinct indices below `length`, in the generator's order. The generator
/// is deterministic, so the indices are a function of the three arguments.
/// Lengths above `u32::MAX` are left out: only below it does the crate
/// sample by one algorithm on every platform.
#[verifier::external_body]
pub(crate) fn sample_indices(seed: u64, length: usize, amount: usize) -> (picked: Vec<usize>)
    requires
        amount <= length,
        length <= u32::MAX,
    ensures
        picked@ == drawn_indices(seed, length, amount),
        picked@.len() == amount,
        forall|i: int| 0 <= i < picked@.len() ==> #[trigger] picked@[i] < length,
        forall|i: int, j: int|
            0 <= i < j < picked@.len() ==> #[trigger] picked@[i] != #[trigger] picked@[j],
{
    rand::seq::index::sample(&mut StdRng::seed_from_u64(seed), length, amount).into_vec()
}

/// `Rng::gen_range(0..bound)` on a generator seeded with `seed`: a number
/// below `bound` that is a function of the two arguments.
#[verifier::external_body]
pub(crate) fn draw_below(seed: u64, bound: u32) -> (drawn: u32)
    requires
        bound > 0,
    ensures
        drawn == first_draw(seed, bound),
        drawn < bound,
{
    StdRng::seed_from_u64(seed).gen_range(0..bound)
}

} // verus!
