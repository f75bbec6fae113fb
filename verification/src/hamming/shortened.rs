//! Encoding and decoding of the (10, 6, 3) shortened Hamming code.

use vstd::prelude::*;

verus! {

use crate::bits::bit;
use crate::hamming::Variant;
use crate::hamming::decode_word;

/// The systematic 10-bit codeword for 6 data bits: the data in the high
/// bits, and below it one parity bit per row of the generator matrix.
pub open spec fn encode_spec(data: u8) -> u16 {
    let d = data as u32;
    let p0 = (bit(d, 0x20) + bit(d, 0x10) + bit(d, 0x8) + bit(d, 0x1)) % 2;  // row 0b111001
    let p1 = (bit(d, 0x20) + bit(d, 0x10) + bit(d, 0x4) + bit(d, 0x1)) % 2;  // row 0b110101
    let p2 = (bit(d, 0x20) + bit(d, 0x8) + bit(d, 0x4) + bit(d, 0x2)) % 2;  // row 0b101110
    let p3 = (bit(d, 0x10) + bit(d, 0x8) + bit(d, 0x4) + bit(d, 0x2)) % 2;  // row 0b011110
    ((data as int) * 16 + p0 * 8 + p1 * 4 + p2 * 2 + p3) as u16
}

/// Encode the given 6 data bits into a 10-bit codeword.
pub fn encode(data: u8) -> (w: u16)
    requires
        data < 0x40,
    ensures
        w == encode_spec(data),
{
    let d = data as u32;
    let p0 = (d / 0x20 % 2 + d / 0x10 % 2 + d / 0x8 % 2 + d % 2) % 2;
    let p1 = (d / 0x20 % 2 + d / 0x10 % 2 + d / 0x4 % 2 + d % 2) % 2;
    let p2 = (d / 0x20 % 2 + d / 0x8 % 2 + d / 0x4 % 2 + d / 0x2 % 2) % 2;
    let p3 = (d / 0x10 % 2 + d / 0x8 % 2 + d / 0x4 % 2 + d / 0x2 % 2) % 2;
    (d * 16 + p0 * 8 + p1 * 4 + p2 * 2 + p3) as u16
}

/// Try to decode the given 10-bit word to the nearest codeword, correcting up
/// to 1 error.
///
/// If decoding was successful, return `Some((data, err))`, where `data` is
/// the 6 data bits and `err` is the number of corrected bits. Otherwise,
/// return `None` to indicate an unrecoverable error.
pub fn decode(word: u16) -> (r: Option<(u8, usize)>)
    requires
        word < 0x400,
    ensures
        r == decode_spec(word),
{
    proof {
        let s = crate::hamming::syndrome_spec(Variant::Shortened, word);
        let loc = crate::hamming::location_spec(Variant::Shortened, s);
        if s != 0 && loc != 0 {
            crate::bits::lemma_xor_bound(word as u32, loc as u32, 0x400);
        }
    }
    match decode_word(Variant::Shortened, word) {
        Some((data, err)) => Some((data as u8, err)),
        None => None,
    }
}

/// What decoding yields for the shortened code, with the data narrowed to
/// its 6-bit width.
pub open spec fn decode_spec(word: u16) -> Option<(u8, usize)> {
    match crate::hamming::decode_spec(Variant::Shortened, word) {
        Some(r) => Some(((r.0 % 256) as u8, r.1)),
        None => None,
    }
}

/// Holds when exactly one of the low 10 bits of `e` is set: the errors a
/// received 10-bit word can hold in one position.
pub open spec fn single_bit10(e: u16) -> bool {
    e == 0x1 || e == 0x2 || e == 0x4 || e == 0x8 || e == 0x10 || e == 0x20 || e == 0x40
        || e == 0x80 || e == 0x100 || e == 0x200
}

/// The generator and parity-check matrices are dual: every codeword that
/// `encode` produces has a zero syndrome.
pub proof fn lemma_codeword_syndrome(d: u8)
    requires
        d < 0x40,
    ensures
        crate::hamming::shortened_syndrome(encode_spec(d)) == 0,
{
    assert(crate::hamming::shortened_syndrome(encode_spec(d)) == 0) by (bit_vector)
        requires
            d < 0x40,
    ;
}

/// The syndrome map is linear over GF(2): flipping bits of a word with a
/// zero syndrome gives the word the syndrome of the flipped bits alone.
proof fn lemma_syn_zero_xor(w: u16, e: u16)
    requires
        w < 0x400,
        e < 0x400,
        crate::hamming::shortened_syndrome(w) == 0,
    ensures
        crate::hamming::shortened_syndrome(w ^ e) == crate::hamming::shortened_syndrome(e),
        (w ^ e) < 0x400,
{
    assert(w < 0x400 && e < 0x400 && crate::hamming::shortened_syndrome(w) == 0
        ==> crate::hamming::shortened_syndrome(w ^ e) == crate::hamming::shortened_syndrome(e)
            && (w ^ e) < 0x400) by (bit_vector);
}

/// Each single set bit has a nonzero syndrome whose table entry names
/// exactly that bit.
#[verifier::rlimit(100)]
proof fn lemma_single_location(e: u16)
    requires
        single_bit10(e),
    ensures
        crate::hamming::shortened_syndrome(e) != 0,
        crate::hamming::shortened_location(crate::hamming::shortened_syndrome(e)) == e,
{
}

/// Round trip: decoding an uncorrupted codeword recovers its data bits with
/// a corrected-error count of zero.
pub proof fn lemma_round_trip(d: u8)
    requires
        d < 0x40,
    ensures
        decode_spec(encode_spec(d)) == Some((d, 0usize)),
{
    lemma_codeword_syndrome(d);
    assert(encode_spec(d) / 16 == d);
}

/// Single-bit correction: flipping any one bit of a codeword decodes to the
/// original data with a corrected-error count of one.
pub proof fn lemma_single_error(d: u8, e: u16)
    requires
        d < 0x40,
        single_bit10(e),
    ensures
        decode_spec(encode_spec(d) ^ e) == Some((d, 1usize)),
{
    let cw = encode_spec(d);
    lemma_codeword_syndrome(d);
    assert(cw < 0x400 && cw / 16 == d);
    lemma_syn_zero_xor(cw, e);
    lemma_single_location(e);
    crate::bits::lemma_xor_cancel16(cw, e);
}

} // verus!
