//! The record that the harness writes: a fixed-size block marked by its key.

use vstd::prelude::*;

verus! {

/// Size of a record's value block in bytes.
pub const VALUE_BYTES: usize = 1024;

/// A value block as it is stored.
pub type Value = Box<[u8; VALUE_BYTES]>;

/// The bytes of the block written for `seed`: zero everywhere but at three
/// marker positions, which hold the three low bytes of the seed.
pub open spec fn record_bytes(seed: usize) -> Seq<u8> {
    Seq::new(
        VALUE_BYTES as nat,
        |i: int|
            if i == 0 {
                (seed % 256) as u8
            } else if i == VALUE_BYTES / 2 {
                ((seed / 256) % 256) as u8
            } else if i == VALUE_BYTES - 1 {
                ((seed / 65536) % 256) as u8
            } else {
                0u8
            },
    )
}

/// Builds a fresh value block for `seed`.
pub fn make_value(seed: usize) -> (v: Value)
    ensures
        v@ == record_bytes(seed),
{
    let low: u8 = (seed & 0xFF) as u8;
    let mid: u8 = ((seed >> 8) & 0xFF) as u8;
    let high: u8 = ((seed >> 16) & 0xFF) as u8;
    assert(seed & 0xFF == seed % 256) by (bit_vector);
    assert((seed >> 8) & 0xFF == (seed / 256) % 256) by (bit_vector);
    assert((seed >> 16) & 0xFF == (seed / 65536) % 256) by (bit_vector);
    let mut block: [u8; VALUE_BYTES] = [0u8; VALUE_BYTES];
    block[0] = low;
    block[VALUE_BYTES / 2] = mid;
    block[VALUE_BYTES - 1] = high;
    assert(block@ =~= record_bytes(seed));
    Box::new(block)
}

} // verus!
