//! The worker's private random source.

use crate::workload::DRAW_BITS;
use crate::workload::DRAW_SCALE;
use rand::rngs::ThreadRng;
use rand::Rng;
use vstd::prelude::*;

verus! {

/// `rand::rngs::ThreadRng`, the handle to a thread's generator: carried
/// through as it is, nothing is known of what it holds.
#[verifier::external_type_specification]
#[verifier::external_body]
pub struct ExThreadRng(ThreadRng);

/// `rand::thread_rng`: a handle to the calling thread's generator, which is
/// seeded from the system when the thread first asks for it. Nothing is
/// claimed of it.
pub assume_specification[ rand::thread_rng ]() -> ThreadRng;

/// `Rng::gen` at `u64`: sixty-four random bits. Nothing is claimed of them.
#[verifier::external_body]
pub(crate) fn random_bits(rng: &mut ThreadRng) -> u64 {
    rng.gen::<u64>()
}

/// `Rng::gen_range` over `0..bound`: the call panics on an empty range, so
/// `bound` must be positive; the result lies in the range.
#[verifier::external_body]
pub(crate) fn random_below(rng: &mut ThreadRng, bound: usize) -> (index: usize)
    requires
        bound > 0,
    ensures
        index < bound,
{
    rng.gen_range(0..bound)
}

/// A random word has this many bits more than a uniform draw.
pub const SPARE_BITS: u64 = 64 - DRAW_BITS;

/// The uniform draw that a random word stands for: its top `DRAW_BITS` bits,
/// which is the word divided by two to the power of `SPARE_BITS`.
pub open spec fn draw_of_bits(bits: u64) -> u64 {
    (bits / 2048) as u64
}

/// Turns a random word into a uniform draw.
pub fn unit_draw_from_bits(bits: u64) -> (draw: u64)
    ensures
        draw == draw_of_bits(bits),
        draw < DRAW_SCALE,
{
    assert(bits >> SPARE_BITS == bits / 2048) by (bit_vector);
    assert(bits >> SPARE_BITS < DRAW_SCALE) by (bit_vector);
    bits >> SPARE_BITS
}

/// A fresh uniform draw from the worker's generator.
pub fn unit_draw(rng: &mut ThreadRng) -> (draw: u64)
    ensures
        draw < DRAW_SCALE,
{
    let bits = random_bits(rng);
    unit_draw_from_bits(bits)
}

} // verus!
