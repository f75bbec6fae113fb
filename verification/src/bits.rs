//! Bit-level groundwork shared by the codecs: reading a single bit of a word
//! arithmetically, and a few facts about exclusive-or on bounded words.

use vstd::prelude::*;

verus! {

/// The bit of `w` whose weight is `p`, where `p` is a power of two: 0 or 1.
///
/// Stating bits through division and remainder keeps every specification in
/// plain arithmetic, which the solver can evaluate directly on constants.
pub open spec fn bit(w: u32, p: u32) -> int {
    ((w / p) % 2) as int
}

/// Exclusive-or undoes itself: flipping the same bits twice restores a word.
pub proof fn lemma_xor_cancel(x: u32, y: u32)
    ensures
        (x ^ y) ^ y == x,
{
    assert((x ^ y) ^ y == x) by (bit_vector);
}

/// Exclusive-or never sets a bit above the width of its widest operand.
pub proof fn lemma_xor_bound(x: u32, y: u32, b: u32)
    requires
        x < b,
        y < b,
        b == 0x400 || b == 0x8000 || b == 0x10000 || b == 0x20000,
    ensures
        (x ^ y) < b,
{
    assert(x < b && y < b && (b == 0x400 || b == 0x8000 || b == 0x10000 || b == 0x20000)
        ==> (x ^ y) < b) by (bit_vector);
}

/// Exclusive-or undoes itself on 16-bit words as well.
pub proof fn lemma_xor_cancel16(x: u16, y: u16)
    ensures
        (x ^ y) ^ y == x,
{
    assert((x ^ y) ^ y == x) by (bit_vector);
}

} // verus!
