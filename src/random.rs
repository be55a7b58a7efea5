//! The random source of a session and the few draws that the library makes
//! from it.
use rand::rngs::SmallRng;
use rand::seq::{IndexedRandom, SliceRandom};
use rand::{Rng, SeedableRng};
use vstd::prelude::*;

verus! {

/// The generator that each lottery, reel producer and launch producer owns:
/// small and fast, and seedable for reproducible sessions.
#[verifier::external_type_specification]
#[verifier::external_body]
pub struct ExSmallRng(SmallRng);

/// Relies on `SeedableRng::from_os_rng`: a generator seeded from the
/// operating system. Nothing is claimed of the seed; the call panics only
/// when the operating system has no entropy to give.
#[verifier::external_body]
pub(crate) fn os_seeded_rng() -> (r: SmallRng) {
    SmallRng::from_os_rng()
}

/// Relies on `Rng::random_range` over `lo..hi`: a value of the half-open range.
/// It panics on an empty range, which `requires` leaves out.
#[verifier::external_body]
pub(crate) fn random_in(rng: &mut SmallRng, lo: u64, hi: u64) -> (r: u64)
    requires
        lo < hi,
    ensures
        lo <= r < hi,
{
    rng.random_range(lo..hi)
}

/// Relies on `IndexedRandom::choose`: on a non-empty slice it returns one of
/// its elements.
#[verifier::external_body]
pub(crate) fn choose_from<T: Copy>(rng: &mut SmallRng, items: &Vec<T>) -> (r: T)
    requires
        items@.len() > 0,
    ensures
        items@.contains(r),
{
    *items.choose(rng).unwrap()
}

/// Relies on `SliceRandom::shuffle`: it permutes the slice in place.
#[verifier::external_body]
pub(crate) fn shuffle<T>(rng: &mut SmallRng, items: &mut Vec<T>)
    ensures
        final(items)@.to_multiset() == old(items)@.to_multiset(),
{
    items.shuffle(rng)
}

/// A Bernoulli draw that is true with probability `numerator / denominator`:
/// a uniform value below `denominator` falls below `numerator`.
pub fn chance(rng: &mut SmallRng, numerator: u64, denominator: u64) -> (r: bool)
    requires
        0 < denominator,
        numerator <= denominator,
    ensures
        numerator == 0 ==> !r,
        numerator == denominator ==> r,
{
    random_in(rng, 0, denominator) < numerator
}

} // verus!
