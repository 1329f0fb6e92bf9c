//! What a screen cast may show, as bits to be combined.
use vstd::prelude::*;

verus! {

pub const MONITOR: u32 = 1;

pub const WINDOW: u32 = 2;

pub const VIRTUAL: u32 = 4;

pub const ALL: u32 = MONITOR | WINDOW | VIRTUAL;

/// The kinds of source are three different bits, and `ALL` is made of them and nothing else.
pub proof fn source_types_are_the_bits_of_all(types: u32)
    ensures
        MONITOR & WINDOW == 0,
        MONITOR & VIRTUAL == 0,
        WINDOW & VIRTUAL == 0,
        ALL == 7,
        types & ALL == types <==> types <= ALL,
{
    assert(1u32 & 2u32 == 0) by (bit_vector);
    assert(1u32 & 4u32 == 0) by (bit_vector);
    assert(2u32 & 4u32 == 0) by (bit_vector);
    assert(1u32 | 2u32 | 4u32 == 7) by (bit_vector);
    assert(types & 7u32 == types <==> types <= 7) by (bit_vector);
}

} // verus!
