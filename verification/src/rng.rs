//! The random source: the thread-local generator of the `rand` crate.

use vstd::prelude::*;
use rand::Rng;
use rand::rngs::ThreadRng;

verus! {

/// The thread-local generator type of `rand`, carried through opaquely.
#[verifier::external_type_specification]
#[verifier::external_body]
pub struct ExThreadRng(rand::rngs::ThreadRng);

/// Calls `rand::thread_rng`, which hands out the thread-local generator
/// seeded by the system. Nothing is stated of the generator.
#[verifier::external_body]
pub(crate) fn thread_rng() -> ThreadRng {
    rand::thread_rng()
}

/// Calls `Rng::gen_range` with the half-open range `lo..hi`. The crate
/// documents that the result lies in the range and that an empty range
/// panics, so `lo < hi` is required; which value comes out is left open.
#[verifier::external_body]
pub(crate) fn gen_range_usize(rng: &mut ThreadRng, lo: usize, hi: usize) -> (r: usize)
    requires
        lo < hi,
    ensures
        lo <= r < hi,
{
    rng.gen_range(lo..hi)
}

} // verus!
