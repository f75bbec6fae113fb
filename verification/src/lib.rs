//! Forward error correction for the data channel of a digital land-mobile-radio
//! system: a shortened cyclic (16, 8, 5) code correcting up to 2 bit errors, and
//! standard (15, 11, 3) and shortened (10, 6, 3) Hamming codes correcting up to
//! 1 bit error.
//!
//! Every codec is systematic: the high bits of a codeword hold the data bits
//! unchanged and the low bits hold parity computed over GF(2), the field where
//! addition of bits is exclusive-or.

pub mod bits;
pub mod cyclic;
pub mod hamming;
