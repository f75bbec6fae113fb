//! Encoding and decoding of the (16, 8, 5) shortened cyclic code.
//!
//! The code is obtained by shortening a (17, 8, 5) cyclic parent code by one
//! bit. Decoding therefore treats a received 16-bit word as a 17-bit word of
//! the parent code and walks it through a full cycle of 17 single-bit
//! rotations: whenever the syndrome of the current rotation matches one of 17
//! canonical low-bit-set error patterns, those bits are flipped. After the
//! full cycle every bit is back in its original position, so the data bits can
//! be read from the top of the word.

use vstd::prelude::*;

verus! {

use crate::bits::bit;
use crate::bits::lemma_xor_bound;

/// The 8-bit syndrome of a 17-bit word under the parity-check matrix of the
/// parent cyclic code, whose rows are generated from x^i mod g(x) for the
/// defining polynomial g. A zero syndrome means the word is a codeword.
#[verifier::opaque]
pub open spec fn syndrome_spec(w: u32) -> int {
    let s0 = (bit(w, 0x10000) + bit(w, 0x100) + bit(w, 0x20) + bit(w, 0x10) + bit(w, 0x8)
        + bit(w, 0x4)) % 2;  // row 0b10000000100111100
    let s1 = (bit(w, 0x8000) + bit(w, 0x80) + bit(w, 0x10) + bit(w, 0x8) + bit(w, 0x4)
        + bit(w, 0x2)) % 2;  // row 0b01000000010011110
    let s2 = (bit(w, 0x4000) + bit(w, 0x40) + bit(w, 0x8) + bit(w, 0x4) + bit(w, 0x2)
        + bit(w, 0x1)) % 2;  // row 0b00100000001001111
    let s3 = (bit(w, 0x2000) + bit(w, 0x100) + bit(w, 0x10) + bit(w, 0x8) + bit(w, 0x2)
        + bit(w, 0x1)) % 2;  // row 0b00010000100011011
    let s4 = (bit(w, 0x1000) + bit(w, 0x100) + bit(w, 0x80) + bit(w, 0x20) + bit(w, 0x10)
        + bit(w, 0x1)) % 2;  // row 0b00001000110110001
    let s5 = (bit(w, 0x800) + bit(w, 0x100) + bit(w, 0x80) + bit(w, 0x40) + bit(w, 0x20)
        + bit(w, 0x4)) % 2;  // row 0b00000100111100100
    let s6 = (bit(w, 0x400) + bit(w, 0x80) + bit(w, 0x40) + bit(w, 0x20) + bit(w, 0x10)
        + bit(w, 0x2)) % 2;  // row 0b00000010011110010
    let s7 = (bit(w, 0x200) + bit(w, 0x40) + bit(w, 0x20) + bit(w, 0x10) + bit(w, 0x8)
        + bit(w, 0x1)) % 2;  // row 0b00000001001111001
    s0 * 128 + s1 * 64 + s2 * 32 + s3 * 16 + s4 * 8 + s5 * 4 + s6 * 2 + s7
}

/// The systematic 16-bit codeword for 8 data bits: the data in the high byte,
/// and in the low byte one parity bit per row of the generator matrix.
pub open spec fn encode_spec(data: u8) -> u16 {
    let d = data as u32;
    let p0 = (bit(d, 0x20) + bit(d, 0x10) + bit(d, 0x8) + bit(d, 0x4)) % 2;  // row 0b00111100
    let p1 = (bit(d, 0x80) + bit(d, 0x10) + bit(d, 0x8) + bit(d, 0x4) + bit(d, 0x2)) % 2;  // row 0b10011110
    let p2 = (bit(d, 0x40) + bit(d, 0x8) + bit(d, 0x4) + bit(d, 0x2) + bit(d, 0x1)) % 2;  // row 0b01001111
    let p3 = (bit(d, 0x10) + bit(d, 0x8) + bit(d, 0x2) + bit(d, 0x1)) % 2;  // row 0b00011011
    let p4 = (bit(d, 0x80) + bit(d, 0x20) + bit(d, 0x10) + bit(d, 0x1)) % 2;  // row 0b10110001
    let p5 = (bit(d, 0x80) + bit(d, 0x40) + bit(d, 0x20) + bit(d, 0x4)) % 2;  // row 0b11100100
    let p6 = (bit(d, 0x80) + bit(d, 0x40) + bit(d, 0x20) + bit(d, 0x10) + bit(d, 0x2)) % 2;  // row 0b11110010
    let p7 = (bit(d, 0x40) + bit(d, 0x20) + bit(d, 0x10) + bit(d, 0x8) + bit(d, 0x1)) % 2;  // row 0b01111001
    ((data as int) * 256 + p0 * 128 + p1 * 64 + p2 * 32 + p3 * 16 + p4 * 8 + p5 * 4 + p6 * 2
        + p7) as u16
}

/// One cyclic rotation of a 17-bit word to the right: the low bit moves to
/// the top position, weight 0x10000.
pub open spec fn rot(w: u32) -> u32 {
    ((w % 2) * 0x10000 + w / 2) as u32
}

/// `n` successive cyclic rotations of a 17-bit word.
pub open spec fn rotn(w: u32, n: nat) -> u32
    decreases n,
{
    if n == 0 {
        w
    } else {
        rotn(rot(w), (n - 1) as nat)
    }
}

/// The canonical correctable error pattern for a nonzero syndrome, with its
/// number of set bits, or `None` if the syndrome is not one of the 17
/// recognized values. Every stored pattern has its low bit set: a cyclic
/// shift of any correctable error reduces to one of these forms at the right
/// alignment, so no other pattern needs to be stored.
#[verifier::opaque]
pub open spec fn pattern_spec(s: int) -> Option<(u32, u32)> {
    if s == 0b00011001 {
        Some((0b00100000000000001u32, 2u32))
    } else if s == 0b00011110 {
        Some((0b00000000001000001u32, 2u32))
    } else if s == 0b00101001 {
        Some((0b00010000000000001u32, 2u32))
    } else if s == 0b00110001 {
        Some((0b00001000000000001u32, 2u32))
    } else if s == 0b00111000 {
        Some((0b00000001000000001u32, 2u32))
    } else if s == 0b00111001 {
        Some((0b00000000000000001u32, 1u32))
    } else if s == 0b00111011 {
        Some((0b00000010000000001u32, 2u32))
    } else if s == 0b00111101 {
        Some((0b00000100000000001u32, 2u32))
    } else if s == 0b01001011 {
        Some((0b00000000000000011u32, 2u32))
    } else if s == 0b01110111 {
        Some((0b00000000010000001u32, 2u32))
    } else if s == 0b01111001 {
        Some((0b01000000000000001u32, 2u32))
    } else if s == 0b10100101 {
        Some((0b00000000100000001u32, 2u32))
    } else if s == 0b10110110 {
        Some((0b00000000000100001u32, 2u32))
    } else if s == 0b10111001 {
        Some((0b10000000000000001u32, 2u32))
    } else if s == 0b11001000 {
        Some((0b00000000000001001u32, 2u32))
    } else if s == 0b11011101 {
        Some((0b00000000000000101u32, 2u32))
    } else if s == 0b11100010 {
        Some((0b00000000000010001u32, 2u32))
    } else {
        None
    }
}

/// The state of the rotation search after `n` of its 17 steps, starting from
/// correction record `fixed` and word `w`. The record holds the set-bit count
/// of the last applied pattern, or `None` if the last nonzero syndrome was
/// unrecognized; the word carries the accumulated corrections and rotations.
pub open spec fn scan(fixed: Option<u32>, w: u32, n: nat) -> (Option<u32>, u32)
    decreases n,
{
    if n == 0 {
        (fixed, w)
    } else {
        let s = syndrome_spec(w);
        if s == 0 {
            scan(fixed, rot(w), (n - 1) as nat)
        } else {
            match pattern_spec(s) {
                Some(p) => scan(Some(p.1), rot(w ^ p.0), (n - 1) as nat),
                None => scan(None, rot(w), (n - 1) as nat),
            }
        }
    }
}

/// What decoding a received word yields: the full 17-step rotation search,
/// then the data byte read from the upper 8 significant bits of the 16-bit
/// view, together with the count of corrected bits.
pub open spec fn decode_spec(word: u16) -> Option<(u8, usize)> {
    let r = scan(Some(0u32), word as u32, 17);
    match r.0 {
        Some(err) => Some((((r.1 / 256) % 256) as u8, err as usize)),
        None => None,
    }
}

/// Encode the given 8 data bits into a 16-bit codeword.
pub fn encode(data: u8) -> (w: u16)
    ensures
        w == encode_spec(data),
{
    let d = data as u32;
    let p0 = (d / 0x20 % 2 + d / 0x10 % 2 + d / 0x8 % 2 + d / 0x4 % 2) % 2;
    let p1 = (d / 0x80 % 2 + d / 0x10 % 2 + d / 0x8 % 2 + d / 0x4 % 2 + d / 0x2 % 2) % 2;
    let p2 = (d / 0x40 % 2 + d / 0x8 % 2 + d / 0x4 % 2 + d / 0x2 % 2 + d % 2) % 2;
    let p3 = (d / 0x10 % 2 + d / 0x8 % 2 + d / 0x2 % 2 + d % 2) % 2;
    let p4 = (d / 0x80 % 2 + d / 0x20 % 2 + d / 0x10 % 2 + d % 2) % 2;
    let p5 = (d / 0x80 % 2 + d / 0x40 % 2 + d / 0x20 % 2 + d / 0x4 % 2) % 2;
    let p6 = (d / 0x80 % 2 + d / 0x40 % 2 + d / 0x20 % 2 + d / 0x10 % 2 + d / 0x2 % 2) % 2;
    let p7 = (d / 0x40 % 2 + d / 0x20 % 2 + d / 0x10 % 2 + d / 0x8 % 2 + d % 2) % 2;
    (d * 256 + p0 * 128 + p1 * 64 + p2 * 32 + p3 * 16 + p4 * 8 + p5 * 4 + p6 * 2 + p7) as u16
}

/// Compute the syndrome of a 17-bit word.
#[verifier::rlimit(100)]
fn syndrome(w: u32) -> (s: u32)
    requires
        w < 0x20000,
    ensures
        s as int == syndrome_spec(w),
{
    proof {
        reveal(syndrome_spec);
    }
    let s0 = (w / 0x10000 % 2 + w / 0x100 % 2 + w / 0x20 % 2 + w / 0x10 % 2 + w / 0x8 % 2
        + w / 0x4 % 2) % 2;
    let s1 = (w / 0x8000 % 2 + w / 0x80 % 2 + w / 0x10 % 2 + w / 0x8 % 2 + w / 0x4 % 2
        + w / 0x2 % 2) % 2;
    let s2 = (w / 0x4000 % 2 + w / 0x40 % 2 + w / 0x8 % 2 + w / 0x4 % 2 + w / 0x2 % 2
        + w % 2) % 2;
    let s3 = (w / 0x2000 % 2 + w / 0x100 % 2 + w / 0x10 % 2 + w / 0x8 % 2 + w / 0x2 % 2
        + w % 2) % 2;
    let s4 = (w / 0x1000 % 2 + w / 0x100 % 2 + w / 0x80 % 2 + w / 0x20 % 2 + w / 0x10 % 2
        + w % 2) % 2;
    let s5 = (w / 0x800 % 2 + w / 0x100 % 2 + w / 0x80 % 2 + w / 0x40 % 2 + w / 0x20 % 2
        + w / 0x4 % 2) % 2;
    let s6 = (w / 0x400 % 2 + w / 0x80 % 2 + w / 0x40 % 2 + w / 0x20 % 2 + w / 0x10 % 2
        + w / 0x2 % 2) % 2;
    let s7 = (w / 0x200 % 2 + w / 0x40 % 2 + w / 0x20 % 2 + w / 0x10 % 2 + w / 0x8 % 2
        + w % 2) % 2;
    s0 * 128 + s1 * 64 + s2 * 32 + s3 * 16 + s4 * 8 + s5 * 4 + s6 * 2 + s7
}

/// Find the canonical error pattern and its set-bit count for a syndrome.
fn pattern(s: u32) -> (r: Option<(u32, u32)>)
    ensures
        r == pattern_spec(s as int),
        r matches Some(p) ==> 0 < p.0 < 0x20000,
{
    proof {
        reveal(pattern_spec);
    }
    match s {
        0b00011001 => Some((0b00100000000000001, 2)),
        0b00011110 => Some((0b00000000001000001, 2)),
        0b00101001 => Some((0b00010000000000001, 2)),
        0b00110001 => Some((0b00001000000000001, 2)),
        0b00111000 => Some((0b00000001000000001, 2)),
        0b00111001 => Some((0b00000000000000001, 1)),
        0b00111011 => Some((0b00000010000000001, 2)),
        0b00111101 => Some((0b00000100000000001, 2)),
        0b01001011 => Some((0b00000000000000011, 2)),
        0b01110111 => Some((0b00000000010000001, 2)),
        0b01111001 => Some((0b01000000000000001, 2)),
        0b10100101 => Some((0b00000000100000001, 2)),
        0b10110110 => Some((0b00000000000100001, 2)),
        0b10111001 => Some((0b10000000000000001, 2)),
        0b11001000 => Some((0b00000000000001001, 2)),
        0b11011101 => Some((0b00000000000000101, 2)),
        0b11100010 => Some((0b00000000000010001, 2)),
        _ => None,
    }
}

/// Cyclically rotate a 17-bit word right by one bit position.
pub fn rotate_17(word: u32) -> (r: u32)
    requires
        word < 0x20000,
    ensures
        r == rot(word),
        r < 0x20000,
{
    word % 2 * 0x10000 + word / 2
}

/// Try to decode the given 16-bit word to the nearest codeword, correcting up
/// to 2 errors.
///
/// If decoding was successful, return `Some((data, err))`, where `data` is the
/// 8 data bits and `err` is the number of corrected bits. Otherwise, return
/// `None` to indicate an unrecoverable error.
pub fn decode(word: u16) -> (r: Option<(u8, usize)>)
    ensures
        r == decode_spec(word),
{
    let mut w: u32 = word as u32;
    let mut fixed: Option<u32> = Some(0);
    let mut i: usize = 0;
    while i < 17
        invariant
            i <= 17,
            w < 0x20000,
            scan(Some(0u32), word as u32, 17) == scan(fixed, w, (17 - i) as nat),
        decreases 17 - i,
    {
        let ghost pre_fixed = fixed;
        let ghost pre_w = w;
        let s = syndrome(w);
        if s == 0 {
            w = rotate_17(w);
        } else {
            match pattern(s) {
                Some((pat, ones)) => {
                    proof {
                        lemma_xor_bound(w, pat, 0x20000);
                    }
                    fixed = Some(ones);
                    w = rotate_17(w ^ pat);
                },
                None => {
                    fixed = None;
                    w = rotate_17(w);
                },
            }
        }
        i = i + 1;
        proof {
            assert(scan(pre_fixed, pre_w, (17 - (i - 1)) as nat) == scan(fixed, w, (17 - i) as nat));
        }
    }
    match fixed {
        Some(err) => Some(((w / 256 % 256) as u8, err as usize)),
        None => None,
    }
}

/// The generator and parity-check matrices are dual: every codeword that
/// `encode` produces has a zero syndrome.
pub proof fn lemma_codeword_syndrome(d: u8)
    ensures
        syndrome_spec(encode_spec(d) as u32) == 0,
{
    assert(syndrome_spec(encode_spec(d) as u32) == 0) by (bit_vector);
}

/// The parent code is cyclic: rotating a word with a zero syndrome yields
/// another word with a zero syndrome.
proof fn lemma_rot_preserves_zero(w: u32)
    requires
        w < 0x20000,
        syndrome_spec(w) == 0,
    ensures
        rot(w) < 0x20000,
        syndrome_spec(rot(w)) == 0,
{
    assert(w < 0x20000 && syndrome_spec(w) == 0 ==> syndrome_spec(rot(w)) == 0) by (bit_vector);
}

/// A rotation search that starts on a codeword applies no correction: it
/// only rotates, keeping the syndrome zero throughout.
proof fn lemma_scan_clean(fixed: Option<u32>, w: u32, n: nat)
    requires
        w < 0x20000,
        syndrome_spec(w) == 0,
    ensures
        scan(fixed, w, n) == (fixed, rotn(w, n)),
        rotn(w, n) < 0x20000,
        syndrome_spec(rotn(w, n)) == 0,
    decreases n,
{
    if n > 0 {
        lemma_rot_preserves_zero(w);
        lemma_scan_clean(fixed, rot(w), (n - 1) as nat);
    }
}

/// Cyclic-rotation round trip: 17 successive single-bit rotations return a
/// 17-bit word to its original value.
pub proof fn lemma_rotate_cycle(w: u32)
    requires
        w < 0x20000,
    ensures
        rotn(w, 17) == w,
{
    assert(rotn(w, 17) == w) by (bit_vector)
        requires
            w < 0x20000,
    ;
}

/// Holds when exactly one of the low 16 bits of `e` is set: the errors a
/// received 16-bit word can hold in one position.
pub open spec fn single_bit16(e: u16) -> bool {
    e == 0x1 || e == 0x2 || e == 0x4 || e == 0x8 || e == 0x10 || e == 0x20 || e == 0x40
        || e == 0x80 || e == 0x100 || e == 0x200 || e == 0x400 || e == 0x800 || e == 0x1000
        || e == 0x2000 || e == 0x4000 || e == 0x8000
}

/// Holds when exactly one of the low 17 bits of `x` is set.
pub open spec fn single_bit17(x: u32) -> bool {
    x == 0x1 || x == 0x2 || x == 0x4 || x == 0x8 || x == 0x10 || x == 0x20 || x == 0x40
        || x == 0x80 || x == 0x100 || x == 0x200 || x == 0x400 || x == 0x800 || x == 0x1000
        || x == 0x2000 || x == 0x4000 || x == 0x8000 || x == 0x10000
}

/// The position of the one set bit of a 17-bit power of two.
pub open spec fn bit_pos(x: u32) -> int {
    if x == 0x1 {
        0
    } else if x == 0x2 {
        1
    } else if x == 0x4 {
        2
    } else if x == 0x8 {
        3
    } else if x == 0x10 {
        4
    } else if x == 0x20 {
        5
    } else if x == 0x40 {
        6
    } else if x == 0x80 {
        7
    } else if x == 0x100 {
        8
    } else if x == 0x200 {
        9
    } else if x == 0x400 {
        10
    } else if x == 0x800 {
        11
    } else if x == 0x1000 {
        12
    } else if x == 0x2000 {
        13
    } else if x == 0x4000 {
        14
    } else if x == 0x8000 {
        15
    } else {
        16
    }
}

/// The syndrome map is linear over GF(2): flipping bits of a word with a
/// zero syndrome gives the word the syndrome of the flipped bits alone.
proof fn lemma_syn_xor(w: u32, x: u32)
    requires
        w < 0x20000,
        x < 0x20000,
        syndrome_spec(w) == 0,
    ensures
        syndrome_spec(w ^ x) == syndrome_spec(x),
        (w ^ x) < 0x20000,
{
    assert(w < 0x20000 && x < 0x20000 && syndrome_spec(w) == 0
        ==> syndrome_spec(w ^ x) == syndrome_spec(x) && (w ^ x) < 0x20000) by (bit_vector);
}

/// Rotation is linear over GF(2): rotating flipped bits flips rotated bits.
proof fn lemma_rot_xor(w: u32, x: u32)
    requires
        w < 0x20000,
        x < 0x20000,
    ensures
        rot(w ^ x) == (rot(w) ^ rot(x)),
{
    assert(w < 0x20000 && x < 0x20000 ==> rot(w ^ x) == (rot(w) ^ rot(x))) by (bit_vector);
}

/// A single set bit anywhere but the low position has a nonzero syndrome
/// that matches no stored pattern: only the aligned form is in the table.
proof fn lemma_single_miss(x: u32)
    requires
        single_bit17(x),
        x != 1,
    ensures
        syndrome_spec(x) != 0,
        pattern_spec(syndrome_spec(x)) is None,
{
    assert(syndrome_spec(x) != 0 && syndrome_spec(x) != 0b00011001 && syndrome_spec(x)
        != 0b00011110 && syndrome_spec(x) != 0b00101001 && syndrome_spec(x) != 0b00110001
        && syndrome_spec(x) != 0b00111000 && syndrome_spec(x) != 0b00111001 && syndrome_spec(x)
        != 0b00111011 && syndrome_spec(x) != 0b00111101 && syndrome_spec(x) != 0b01001011
        && syndrome_spec(x) != 0b01110111 && syndrome_spec(x) != 0b01111001 && syndrome_spec(x)
        != 0b10100101 && syndrome_spec(x) != 0b10110110 && syndrome_spec(x) != 0b10111001
        && syndrome_spec(x) != 0b11001000 && syndrome_spec(x) != 0b11011101 && syndrome_spec(x)
        != 0b11100010) by (bit_vector)
        requires
            single_bit17(x),
            x != 1,
    ;
    assert(pattern_spec(syndrome_spec(x)) is None) by {
        reveal(pattern_spec);
    }
}

/// Halving a single set bit above the low position moves it down one place.
proof fn lemma_half_bit(x: u32)
    requires
        single_bit17(x),
        x != 1,
    ensures
        single_bit17(x / 2),
        bit_pos(x / 2) == bit_pos(x) - 1,
        x % 2 == 0,
{
}

/// A rotation search on a codeword with one flipped bit rotates until that
/// bit reaches the low position, corrects it there as the one-bit canonical
/// pattern, and finishes the cycle clean: no rotation before the alignment
/// matches any stored pattern.
#[verifier::rlimit(100)]
proof fn lemma_scan_single(c: u32, x: u32, fixed: Option<u32>, n: nat)
    requires
        c < 0x20000,
        syndrome_spec(c) == 0,
        single_bit17(x),
        bit_pos(x) < n,
    ensures
        scan(fixed, c ^ x, n) == (Some(1u32), rotn(c, n)),
    decreases n,
{
    lemma_syn_xor(c, x);
    lemma_rot_preserves_zero(c);
    if x == 1 {
        assert(syndrome_spec(1u32) == 0b00111001) by {
            reveal(syndrome_spec);
        }
        assert(pattern_spec(0b00111001) == Some((1u32, 1u32))) by {
            reveal(pattern_spec);
        }
        crate::bits::lemma_xor_cancel(c, 1);
        assert(scan(fixed, c ^ 1, n) == scan(Some(1u32), rot(c), (n - 1) as nat));
        lemma_scan_clean(Some(1u32), rot(c), (n - 1) as nat);
    } else {
        lemma_single_miss(x);
        lemma_half_bit(x);
        lemma_rot_xor(c, x);
        assert(scan(fixed, c ^ x, n) == scan(None, rot(c ^ x), (n - 1) as nat));
        assert(rot(c ^ x) == (rot(c) ^ (x / 2)));
        lemma_scan_single(rot(c), x / 2, None, (n - 1) as nat);
    }
}

/// Single-bit correction: flipping any one bit of a codeword decodes to the
/// original data with a corrected-error count of one.
pub proof fn lemma_single_error(d: u8, e: u16)
    requires
        single_bit16(e),
    ensures
        decode_spec(encode_spec(d) ^ e) == Some((d, 1usize)),
{
    let cw = encode_spec(d) as u32;
    let x = e as u32;
    lemma_codeword_syndrome(d);
    lemma_scan_single(cw, x, Some(0u32), 17);
    lemma_rotate_cycle(cw);
    lemma_encode_high_byte(d);
    assert(((encode_spec(d) ^ e) as u32) == (cw ^ x));
}

/// Two distinct set bits with the low bit among them form exactly one of the
/// canonical two-bit patterns: its syndrome finds it in the table.
#[verifier::rlimit(100)]
proof fn lemma_pair_hit(y: u32)
    requires
        single_bit17(y),
        y != 1,
    ensures
        syndrome_spec((1 + y) as u32) != 0,
        pattern_spec(syndrome_spec((1 + y) as u32)) == Some((((1 + y) as u32, 2u32))),
{
    reveal(syndrome_spec);
    reveal(pattern_spec);
}

/// Two set bits that both sit above the low position have a nonzero syndrome
/// that matches no stored pattern: only low-bit-set patterns are stored.
proof fn lemma_pair_miss(x: u32, y: u32)
    requires
        single_bit17(x),
        single_bit17(y),
        x != 1,
        y != 1,
        x < y,
    ensures
        syndrome_spec((x + y) as u32) != 0,
        pattern_spec(syndrome_spec((x + y) as u32)) is None,
{
    let e = (x + y) as u32;
    assert(syndrome_spec((x + y) as u32) != 0 && syndrome_spec((x + y) as u32) != 0b00011001
        && syndrome_spec((x + y) as u32) != 0b00011110 && syndrome_spec((x + y) as u32)
        != 0b00101001 && syndrome_spec((x + y) as u32) != 0b00110001 && syndrome_spec(
        (x + y) as u32) != 0b00111000 && syndrome_spec((x + y) as u32) != 0b00111001
        && syndrome_spec((x + y) as u32) != 0b00111011 && syndrome_spec((x + y) as u32)
        != 0b00111101 && syndrome_spec((x + y) as u32) != 0b01001011 && syndrome_spec(
        (x + y) as u32) != 0b01110111 && syndrome_spec((x + y) as u32) != 0b01111001
        && syndrome_spec((x + y) as u32) != 0b10100101 && syndrome_spec((x + y) as u32)
        != 0b10110110 && syndrome_spec((x + y) as u32) != 0b10111001 && syndrome_spec(
        (x + y) as u32) != 0b11001000 && syndrome_spec((x + y) as u32) != 0b11011101
        && syndrome_spec((x + y) as u32) != 0b11100010) by (bit_vector)
        requires
            single_bit17(x),
            single_bit17(y),
            x != 1,
            y != 1,
            x < y,
    ;
    assert(pattern_spec(syndrome_spec((x + y) as u32)) is None) by {
        reveal(pattern_spec);
    }
}

/// A rotation search on a codeword with two flipped bits rotates until the
/// lower flipped bit reaches the low position, corrects both bits there as
/// one canonical two-bit pattern, and finishes the cycle clean.
#[verifier::rlimit(100)]
proof fn lemma_scan_double(c: u32, x: u32, y: u32, fixed: Option<u32>, n: nat)
    requires
        c < 0x20000,
        syndrome_spec(c) == 0,
        single_bit17(x),
        single_bit17(y),
        x < y,
        bit_pos(x) < n,
    ensures
        scan(fixed, c ^ ((x + y) as u32), n) == (Some(2u32), rotn(c, n)),
    decreases n,
{
    let e = (x + y) as u32;
    lemma_syn_xor(c, e);
    lemma_rot_preserves_zero(c);
    if x == 1 {
        lemma_pair_hit(y);
        crate::bits::lemma_xor_cancel(c, e);
        assert(scan(fixed, c ^ e, n) == scan(Some(2u32), rot(c), (n - 1) as nat));
        lemma_scan_clean(Some(2u32), rot(c), (n - 1) as nat);
    } else {
        lemma_pair_miss(x, y);
        lemma_half_bit(x);
        lemma_half_bit(y);
        lemma_rot_xor(c, e);
        assert(scan(fixed, c ^ e, n) == scan(None, rot(c ^ e), (n - 1) as nat));
        assert(rot(e) == (x / 2 + y / 2) as u32);
        assert(rot(c ^ e) == (rot(c) ^ ((x / 2 + y / 2) as u32)));
        lemma_scan_double(rot(c), x / 2, y / 2, None, (n - 1) as nat);
    }
}

/// Two distinct single set bits never overlap, so their inclusive-or is
/// their sum.
proof fn lemma_or_is_add(x: u16, y: u16)
    requires
        single_bit16(x),
        single_bit16(y),
        x < y,
    ensures
        (x | y) == x + y,
{
    assert(single_bit16(x) && single_bit16(y) && x < y ==> (x | y) == x + y) by (bit_vector);
}

/// Double-bit correction: flipping any two distinct bits of a codeword
/// decodes to the original data with a corrected-error count of two. Every
/// such error is a cyclic rotation of one of the canonical two-bit patterns.
pub proof fn lemma_double_error(d: u8, x: u16, y: u16)
    requires
        single_bit16(x),
        single_bit16(y),
        x < y,
    ensures
        decode_spec(encode_spec(d) ^ (x | y)) == Some((d, 2usize)),
{
    let cw = encode_spec(d) as u32;
    lemma_codeword_syndrome(d);
    lemma_or_is_add(x, y);
    lemma_scan_double(cw, x as u32, y as u32, Some(0u32), 17);
    lemma_rotate_cycle(cw);
    lemma_encode_high_byte(d);
    assert(((encode_spec(d) ^ (x | y)) as u32) == (cw ^ ((x as u32 + y as u32) as u32)));
}

/// The code is systematic: the high byte of a codeword is the data byte.
proof fn lemma_encode_high_byte(d: u8)
    ensures
        encode_spec(d) / 256 % 256 == d,
{
    assert(encode_spec(d) / 256 % 256 == d) by (bit_vector);
}

/// Round trip: decoding an uncorrupted codeword recovers its data bits with
/// a corrected-error count of zero.
pub proof fn lemma_round_trip(d: u8)
    ensures
        decode_spec(encode_spec(d)) == Some((d, 0usize)),
{
    let cw = encode_spec(d) as u32;
    lemma_codeword_syndrome(d);
    lemma_scan_clean(Some(0u32), cw, 17);
    lemma_rotate_cycle(cw);
    lemma_encode_high_byte(d);
}

} // verus!
