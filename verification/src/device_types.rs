//! What a remote desktop may be controlled with, as bits to be combined.
use vstd::prelude::*;

verus! {

pub const KEYBOARD: u32 = 1;

pub const POINTER: u32 = 2;

pub const TOUCHSCREEN: u32 = 4;

pub const ALL: u32 = KEYBOARD | POINTER | TOUCHSCREEN;

/// The kinds of device are three different bits, and `ALL` is made of them and nothing else.
pub proof fn device_types_are_the_bits_of_all(types: u32)
    ensures
        KEYBOARD & POINTER == 0,
        KEYBOARD & TOUCHSCREEN == 0,
        POINTER & TOUCHSCREEN == 0,
        ALL == 7,
        types & ALL == types <==> types <= ALL,
{
    assert(1u32 & 2u32 == 0) by (bit_vector);
    assert(1u32 & 4u32 == 0) by (bit_vector);
    assert(2u32 & 4u32 == 0) by (bit_vector);
    assert(1u32 | 2u32 | 4u32 == 7) by (bit_vector);
    assert(types & 7u32 == types <==> types <= 7) by (bit_vector);
}

} // verus!
