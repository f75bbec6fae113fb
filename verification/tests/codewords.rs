use fec::cyclic;
use fec::hamming::{shortened, standard};

#[test]
fn test_encode_exact_values() {
    assert_eq!(cyclic::encode(0), 0);
    assert_eq!(cyclic::encode(0b10101011), 0b1010101101111011);
    assert_eq!(cyclic::encode(0b11111111), 0b1111111101100011);

    assert_eq!(standard::encode(0), 0);
    assert_eq!(standard::encode(0b10101010101), 0b101010101010101);
    assert_eq!(standard::encode(0b11111111111), 0b111111111111111);

    assert_eq!(shortened::encode(0), 0);
    assert_eq!(shortened::encode(0b110011), 0b1100111100);
    assert_eq!(shortened::encode(0b111111), 0b1111110000);
}

#[test]
fn test_cyclic_uncorrectable() {
    assert_eq!(cyclic::decode(0b0000000000001011), None);
    assert_eq!(cyclic::decode(0b0000000000001101), None);
    assert_eq!(cyclic::decode(0b0000000000010110), None);
}

#[test]
fn test_shortened_uncorrectable() {
    // two flipped bits reach a syndrome whose table entry is empty
    assert_eq!(shortened::decode(0b1100111010), None);
}

#[test]
fn test_cyclic_single_bit_positions() {
    let w = 0b01010101;
    let e = cyclic::encode(w);
    for j in 0..16 {
        assert_eq!(cyclic::decode(e ^ (1 << j)), Some((w, 1)));
    }
}

#[test]
fn test_cyclic_double_bit_positions() {
    let w = 0b11001010;
    let e = cyclic::encode(w);
    for x in 0..16 {
        for y in (x + 1)..16 {
            assert_eq!(cyclic::decode(e ^ (1u16 << x) ^ (1u16 << y)), Some((w, 2)));
        }
    }
}

#[test]
fn test_standard_single_bit_counts() {
    let w = 0b01101100110;
    let e = standard::encode(w);
    assert_eq!(standard::decode(e), Some((w, 0)));
    for j in 0..15 {
        assert_eq!(standard::decode(e ^ (1 << j)), Some((w, 1)));
    }
}

#[test]
fn test_shortened_single_bit_counts() {
    let w = 0b101101;
    let e = shortened::encode(w);
    assert_eq!(shortened::decode(e), Some((w, 0)));
    for j in 0..10 {
        assert_eq!(shortened::decode(e ^ (1 << j)), Some((w, 1)));
    }
}

#[test]
fn test_rotate_17_all_ones() {
    assert_eq!(cyclic::rotate_17(0b11111111111111111), 0b11111111111111111);
    let mut word = 0b10000000000000001;
    for _ in 0..17 {
        word = cyclic::rotate_17(word);
    }
    assert_eq!(word, 0b10000000000000001);
}
