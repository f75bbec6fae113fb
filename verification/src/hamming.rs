//! Encoding and decoding of the (15, 11, 3) standard and (10, 6, 3) shortened
//! Hamming codes.
//!
//! Both codes correct up to 1 error. The two variants share one syndrome
//! decoder, selected by a small constants value passed at call time; they
//! differ only in their bit widths and their four constant tables.

use vstd::prelude::*;

pub mod standard;
pub mod shortened;

verus! {

use crate::bits::bit;

/// Selects which code's constant tables the shared syndrome decoder uses.
#[derive(Clone, Copy)]
pub enum Variant {
    /// The (15, 11, 3) code: 11 data bits, 4 parity bits.
    Standard,
    /// The (10, 6, 3) code: 6 data bits, 4 parity bits.
    Shortened,
}

/// The 4-bit syndrome of a 15-bit word under the parity-check matrix of the
/// standard code. A zero syndrome means the word is a codeword.
pub open spec fn standard_syndrome(word: u16) -> int {
    let w = word as u32;
    let s0 = (bit(w, 0x4000) + bit(w, 0x2000) + bit(w, 0x1000) + bit(w, 0x800) + bit(w, 0x400)
        + bit(w, 0x200) + bit(w, 0x100) + bit(w, 0x8)) % 2;  // row 0b111111100001000
    let s1 = (bit(w, 0x4000) + bit(w, 0x2000) + bit(w, 0x1000) + bit(w, 0x800) + bit(w, 0x80)
        + bit(w, 0x40) + bit(w, 0x20) + bit(w, 0x4)) % 2;  // row 0b111100011100100
    let s2 = (bit(w, 0x4000) + bit(w, 0x2000) + bit(w, 0x400) + bit(w, 0x200) + bit(w, 0x80)
        + bit(w, 0x40) + bit(w, 0x10) + bit(w, 0x2)) % 2;  // row 0b110011011010010
    let s3 = (bit(w, 0x4000) + bit(w, 0x1000) + bit(w, 0x400) + bit(w, 0x100) + bit(w, 0x80)
        + bit(w, 0x20) + bit(w, 0x10) + bit(w, 0x1)) % 2;  // row 0b101010110110001
    s0 * 8 + s1 * 4 + s2 * 2 + s3
}

/// The 4-bit syndrome of a 10-bit word under the parity-check matrix of the
/// shortened code.
pub open spec fn shortened_syndrome(word: u16) -> int {
    let w = word as u32;
    let s0 = (bit(w, 0x200) + bit(w, 0x100) + bit(w, 0x80) + bit(w, 0x10) + bit(w, 0x8))
        % 2;  // row 0b1110011000
    let s1 = (bit(w, 0x200) + bit(w, 0x100) + bit(w, 0x40) + bit(w, 0x10) + bit(w, 0x4))
        % 2;  // row 0b1101010100
    let s2 = (bit(w, 0x200) + bit(w, 0x80) + bit(w, 0x40) + bit(w, 0x20) + bit(w, 0x2))
        % 2;  // row 0b1011100010
    let s3 = (bit(w, 0x100) + bit(w, 0x80) + bit(w, 0x40) + bit(w, 0x20) + bit(w, 0x1))
        % 2;  // row 0b0111100001
    s0 * 8 + s1 * 4 + s2 * 2 + s3
}

/// The syndrome of a word under the chosen variant's parity-check matrix.
pub open spec fn syndrome_spec(v: Variant, word: u16) -> int {
    match v {
        Variant::Standard => standard_syndrome(word),
        Variant::Shortened => shortened_syndrome(word),
    }
}

/// The bit-error location for a nonzero syndrome of the standard code: each
/// of the 15 nonzero syndromes names one codeword bit.
pub open spec fn standard_location(s: int) -> u16 {
    if s == 1 {
        0b0000000000000001u16
    } else if s == 2 {
        0b0000000000000010u16
    } else if s == 3 {
        0b0000000000010000u16
    } else if s == 4 {
        0b0000000000000100u16
    } else if s == 5 {
        0b0000000000100000u16
    } else if s == 6 {
        0b0000000001000000u16
    } else if s == 7 {
        0b0000000010000000u16
    } else if s == 8 {
        0b0000000000001000u16
    } else if s == 9 {
        0b0000000100000000u16
    } else if s == 10 {
        0b0000001000000000u16
    } else if s == 11 {
        0b0000010000000000u16
    } else if s == 12 {
        0b0000100000000000u16
    } else if s == 13 {
        0b0001000000000000u16
    } else if s == 14 {
        0b0010000000000000u16
    } else if s == 15 {
        0b0100000000000000u16
    } else {
        0u16
    }
}

/// The bit-error location for a nonzero syndrome of the shortened code. The
/// code has fewer bit positions than there are syndrome values, so some
/// syndromes name no position at all: their entry is zero, and a word with
/// such a syndrome holds more than one error.
pub open spec fn shortened_location(s: int) -> u16 {
    if s == 1 {
        0b0000000001u16
    } else if s == 2 {
        0b0000000010u16
    } else if s == 3 {
        0b0000100000u16
    } else if s == 4 {
        0b0000000100u16
    } else if s == 7 {
        0b0001000000u16
    } else if s == 8 {
        0b0000001000u16
    } else if s == 11 {
        0b0010000000u16
    } else if s == 12 {
        0b0000010000u16
    } else if s == 13 {
        0b0100000000u16
    } else if s == 14 {
        0b1000000000u16
    } else {
        0u16
    }
}

/// The location table of the chosen variant.
pub open spec fn location_spec(v: Variant, s: int) -> u16 {
    match v {
        Variant::Standard => standard_location(s),
        Variant::Shortened => shortened_location(s),
    }
}

/// What decoding a word under the chosen variant yields: the data bits above
/// the 4 parity bits and a count of corrected errors, or `None` when the
/// syndrome names no single-bit error.
pub open spec fn decode_spec(v: Variant, word: u16) -> Option<(u16, usize)> {
    let s = syndrome_spec(v, word);
    if s == 0 {
        Some((word / 16, 0))
    } else {
        let loc = location_spec(v, s);
        if loc == 0 {
            None
        } else {
            Some(((word ^ loc) / 16, 1))
        }
    }
}

/// Compute the syndrome of a word under the chosen variant.
fn syndrome(v: Variant, word: u16) -> (s: u16)
    ensures
        s as int == syndrome_spec(v, word),
{
    let w = word as u32;
    match v {
        Variant::Standard => {
            let s0 = (w / 0x4000 % 2 + w / 0x2000 % 2 + w / 0x1000 % 2 + w / 0x800 % 2
                + w / 0x400 % 2 + w / 0x200 % 2 + w / 0x100 % 2 + w / 0x8 % 2) % 2;
            let s1 = (w / 0x4000 % 2 + w / 0x2000 % 2 + w / 0x1000 % 2 + w / 0x800 % 2
                + w / 0x80 % 2 + w / 0x40 % 2 + w / 0x20 % 2 + w / 0x4 % 2) % 2;
            let s2 = (w / 0x4000 % 2 + w / 0x2000 % 2 + w / 0x400 % 2 + w / 0x200 % 2
                + w / 0x80 % 2 + w / 0x40 % 2 + w / 0x10 % 2 + w / 0x2 % 2) % 2;
            let s3 = (w / 0x4000 % 2 + w / 0x1000 % 2 + w / 0x400 % 2 + w / 0x100 % 2
                + w / 0x80 % 2 + w / 0x20 % 2 + w / 0x10 % 2 + w % 2) % 2;
            (s0 * 8 + s1 * 4 + s2 * 2 + s3) as u16
        },
        Variant::Shortened => {
            let s0 = (w / 0x200 % 2 + w / 0x100 % 2 + w / 0x80 % 2 + w / 0x10 % 2 + w / 0x8 % 2)
                % 2;
            let s1 = (w / 0x200 % 2 + w / 0x100 % 2 + w / 0x40 % 2 + w / 0x10 % 2 + w / 0x4 % 2)
                % 2;
            let s2 = (w / 0x200 % 2 + w / 0x80 % 2 + w / 0x40 % 2 + w / 0x20 % 2 + w / 0x2 % 2)
                % 2;
            let s3 = (w / 0x100 % 2 + w / 0x80 % 2 + w / 0x40 % 2 + w / 0x20 % 2 + w % 2) % 2;
            (s0 * 8 + s1 * 4 + s2 * 2 + s3) as u16
        },
    }
}

/// Look up the bit-error location for a syndrome under the chosen variant.
fn location(v: Variant, s: u16) -> (loc: u16)
    ensures
        loc == location_spec(v, s as int),
{
    match v {
        Variant::Standard => match s {
            1 => 0b0000000000000001,
            2 => 0b0000000000000010,
            3 => 0b0000000000010000,
            4 => 0b0000000000000100,
            5 => 0b0000000000100000,
            6 => 0b0000000001000000,
            7 => 0b0000000010000000,
            8 => 0b0000000000001000,
            9 => 0b0000000100000000,
            10 => 0b0000001000000000,
            11 => 0b0000010000000000,
            12 => 0b0000100000000000,
            13 => 0b0001000000000000,
            14 => 0b0010000000000000,
            15 => 0b0100000000000000,
            _ => 0,
        },
        Variant::Shortened => match s {
            1 => 0b0000000001,
            2 => 0b0000000010,
            3 => 0b0000100000,
            4 => 0b0000000100,
            7 => 0b0001000000,
            8 => 0b0000001000,
            11 => 0b0010000000,
            12 => 0b0000010000,
            13 => 0b0100000000,
            14 => 0b1000000000,
            _ => 0,
        },
    }
}

/// The shared syndrome decoder: compute the syndrome, accept a zero syndrome
/// as a codeword, correct the one located bit of a recognized nonzero
/// syndrome, and reject the rest.
pub(crate) fn decode_word(v: Variant, word: u16) -> (r: Option<(u16, usize)>)
    ensures
        r == decode_spec(v, word),
{
    let s = syndrome(v, word);
    if s == 0 {
        return Some((word / 16, 0));
    }
    let loc = location(v, s);
    if loc == 0 {
        return None;
    }
    Some(((word ^ loc) / 16, 1))
}

} // verus!
