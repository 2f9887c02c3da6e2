//! The stochastic source: rand's `StdRng`, and the few draws the learning
//! rules make from it.
use vstd::prelude::*;

verus! {

#[verifier::external_type_specification]
#[verifier::external_body]
pub struct ExStdRng(rand::rngs::StdRng);

/// Relies on `rand::SeedableRng::seed_from_u64`: a generator whose stream is
/// fixed by the seed. Nothing is promised of the values it will produce.
#[verifier::external_body]
pub(crate) fn rng_from_seed(seed: u64) -> (r: rand::rngs::StdRng) {
    <rand::rngs::StdRng as rand::SeedableRng>::seed_from_u64(seed)
}

/// Relies on `rand::SeedableRng::from_rng` over `rand::rngs::OsRng`: a
/// generator seeded by the operating system, or `None` when that source
/// reports an error. Nothing is promised of the values it will produce.
#[verifier::external_body]
pub(crate) fn rng_from_os() -> (r: Option<rand::rngs::StdRng>) {
    <rand::rngs::StdRng as rand::SeedableRng>::from_rng(rand::rngs::OsRng).ok()
}

/// Relies on `rand::Rng::gen_range` over `0..bound`: a value below the
/// bound. It panics only on an empty range, which `requires` leaves out.
#[verifier::external_body]
pub(crate) fn draw_below(rng: &mut rand::rngs::StdRng, bound: u64) -> (r: u64)
    requires
        bound > 0,
    ensures
        r < bound,
{
    rand::Rng::gen_range(rng, 0..bound)
}

/// Relies on `rand::seq::SliceRandom::shuffle`: the elements are permuted
/// in place, none added or lost.
#[verifier::external_body]
pub(crate) fn shuffle_indices(rng: &mut rand::rngs::StdRng, v: &mut Vec<usize>)
    ensures
        final(v)@.len() == old(v)@.len(),
        final(v)@.to_multiset() == old(v)@.to_multiset(),
{
    rand::seq::SliceRandom::shuffle(v.as_mut_slice(), rng)
}

} // verus!
