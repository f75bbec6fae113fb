//! Encoding and decoding of the (15, 11, 3) standard Hamming code.

use vstd::prelude::*;

verus! {

use crate::bits::bit;
use crate::hamming::Variant;
use crate::hamming::decode_word;

/// The systematic 15-bit codeword for 11 data bits: the data in the high
/// bits, and below it one parity bit per row of the generator matrix.
pub open spec fn encode_spec(data: u16) -> u16 {
    let d = data as u32;
    let p0 = (bit(d, 0x400) + bit(d, 0x200) + bit(d, 0x100) + bit(d, 0x80) + bit(d, 0x40)
        + bit(d, 0x20) + bit(d, 0x10)) % 2;  // row 0b11111110000
    let p1 = (bit(d, 0x400) + bit(d, 0x200) + bit(d, 0x100) + bit(d, 0x80) + bit(d, 0x8)
        + bit(d, 0x4) + bit(d, 0x2)) % 2;  // row 0b11110001110
    let p2 = (bit(d, 0x400) + bit(d, 0x200) + bit(d, 0x40) + bit(d, 0x20) + bit(d, 0x8)
        + bit(d, 0x4) + bit(d, 0x1)) % 2;  // row 0b11001101101
    let p3 = (bit(d, 0x400) + bit(d, 0x100) + bit(d, 0x40) + bit(d, 0x10) + bit(d, 0x8)
        + bit(d, 0x2) + bit(d, 0x1)) % 2;  // row 0b10101011011
    ((data as int) * 16 + p0 * 8 + p1 * 4 + p2 * 2 + p3) as u16
}

/// Encode the given 11 bits of data into a 15-bit codeword.
pub fn encode(data: u16) -> (w: u16)
    requires
        data < 0x800,
    ensures
        w == encode_spec(data),
{
    let d = data as u32;
    let p0 = (d / 0x400 % 2 + d / 0x200 % 2 + d / 0x100 % 2 + d / 0x80 % 2 + d / 0x40 % 2
        + d / 0x20 % 2 + d / 0x10 % 2) % 2;
    let p1 = (d / 0x400 % 2 + d / 0x200 % 2 + d / 0x100 % 2 + d / 0x80 % 2 + d / 0x8 % 2
        + d / 0x4 % 2 + d / 0x2 % 2) % 2;
    let p2 = (d / 0x400 % 2 + d / 0x200 % 2 + d / 0x40 % 2 + d / 0x20 % 2 + d / 0x8 % 2
        + d / 0x4 % 2 + d % 2) % 2;
    let p3 = (d / 0x400 % 2 + d / 0x100 % 2 + d / 0x40 % 2 + d / 0x10 % 2 + d / 0x8 % 2
        + d / 0x2 % 2 + d % 2) % 2;
    (d * 16 + p0 * 8 + p1 * 4 + p2 * 2 + p3) as u16
}

/// Try to decode the given 15-bit word to the nearest codeword, correcting up
/// to 1 error.
///
/// If decoding was successful, return `Some((data, err))`, where `data` is
/// the 11 data bits and `err` is the number of corrected bits. Otherwise,
/// return `None` to indicate an unrecoverable error.
pub fn decode(word: u16) -> (r: Option<(u16, usize)>)
    requires
        word < 0x8000,
    ensures
        r == crate::hamming::decode_spec(Variant::Standard, word),
{
    decode_word(Variant::Standard, word)
}

/// Holds when exactly one of the low 15 bits of `e` is set: the errors a
/// received 15-bit word can hold in one position.
pub open spec fn single_bit15(e: u16) -> bool {
    e == 0x1 || e == 0x2 || e == 0x4 || e == 0x8 || e == 0x10 || e == 0x20 || e == 0x40
        || e == 0x80 || e == 0x100 || e == 0x200 || e == 0x400 || e == 0x800 || e == 0x1000
        || e == 0x2000 || e == 0x4000
}

/// The generator and parity-check matrices are dual: every codeword that
/// `encode` produces has a zero syndrome.
pub proof fn lemma_codeword_syndrome(d: u16)
    requires
        d < 0x800,
    ensures
        crate::hamming::standard_syndrome(encode_spec(d)) == 0,
{
    assert(crate::hamming::standard_syndrome(encode_spec(d)) == 0) by (bit_vector)
        requires
            d < 0x800,
    ;
}

/// The syndrome map is linear over GF(2): flipping bits of a word with a
/// zero syndrome gives the word the syndrome of the flipped bits alone.
proof fn lemma_syn_zero_xor(w: u16, e: u16)
    requires
        w < 0x8000,
        e < 0x8000,
        crate::hamming::standard_syndrome(w) == 0,
    ensures
        crate::hamming::standard_syndrome(w ^ e) == crate::hamming::standard_syndrome(e),
        (w ^ e) < 0x8000,
{
    assert(w < 0x8000 && e < 0x8000 && crate::hamming::standard_syndrome(w) == 0
        ==> crate::hamming::standard_syndrome(w ^ e) == crate::hamming::standard_syndrome(e)
            && (w ^ e) < 0x8000) by (bit_vector);
}

/// Each single set bit has a nonzero syndrome whose table entry names
/// exactly that bit.
#[verifier::rlimit(100)]
proof fn lemma_single_location(e: u16)
    requires
        single_bit15(e),
    ensures
        crate::hamming::standard_syndrome(e) != 0,
        crate::hamming::standard_location(crate::hamming::standard_syndrome(e)) == e,
{
}

/// Round trip: decoding an uncorrupted codeword recovers its data bits with
/// a corrected-error count of zero.
pub proof fn lemma_round_trip(d: u16)
    requires
        d < 0x800,
    ensures
        crate::hamming::decode_spec(Variant::Standard, encode_spec(d)) == Some((d, 0usize)),
{
    lemma_codeword_syndrome(d);
    assert(encode_spec(d) / 16 == d);
}

/// Single-bit correction: flipping any one bit of a codeword decodes to the
/// original data with a corrected-error count of one.
pub proof fn lemma_single_error(d: u16, e: u16)
    requires
        d < 0x800,
        single_bit15(e),
    ensures
        crate::hamming::decode_spec(Variant::Standard, encode_spec(d) ^ e) == Some((d, 1usize)),
{
    let cw = encode_spec(d);
    lemma_codeword_syndrome(d);
    assert(cw < 0x8000 && cw / 16 == d);
    lemma_syn_zero_xor(cw, e);
    lemma_single_location(e);
    crate::bits::lemma_xor_cancel16(cw, e);
}

} // verus!
