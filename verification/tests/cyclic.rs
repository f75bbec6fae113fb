use fec::cyclic::{decode, encode, rotate_17};

#[test]
fn test_decode() {
    let w = 0b10101011;
    let e = encode(w);

    assert_eq!(Some((w, 0)), decode(e ^ 0b0000000000000000));
    assert_eq!(Some((w, 2)), decode(e ^ 0b1000000000000001));
    assert_eq!(Some((w, 1)), decode(e ^ 0b0001000000000000));
    assert_eq!(Some((w, 2)), decode(e ^ 0b0011000000000000));

    assert_eq!(Some((w, 1)), decode(e ^ 0b1000000000000000));
    assert_eq!(Some((w, 1)), decode(e ^ 0b0100000000000000));
    assert_eq!(Some((w, 2)), decode(e ^ 0b0010000000000001));
    assert_eq!(Some((w, 2)), decode(e ^ 0b0001000000000010));
    assert_eq!(Some((w, 2)), decode(e ^ 0b0000100000000100));
    assert_eq!(Some((w, 2)), decode(e ^ 0b0000010000001000));
    assert_eq!(Some((w, 2)), decode(e ^ 0b0000001000010000));
    assert_eq!(Some((w, 2)), decode(e ^ 0b0000000100100000));
    assert_eq!(Some((w, 2)), decode(e ^ 0b0000000011000000));
    assert_eq!(Some((w, 2)), decode(e ^ 0b0000000001010000));
    assert_eq!(Some((w, 2)), decode(e ^ 0b0000000010001000));
    assert_eq!(Some((w, 2)), decode(e ^ 0b0000000100000100));
    assert_eq!(Some((w, 2)), decode(e ^ 0b0000001000000010));
    assert_eq!(Some((w, 2)), decode(e ^ 0b0000010000000001));
    assert_eq!(Some((w, 1)), decode(e ^ 0b0000100000000000));
    assert_eq!(Some((w, 1)), decode(e ^ 0b0001000000000000));
    assert_eq!(Some((w, 2)), decode(e ^ 0b0010000000000001));
    assert_eq!(Some((w, 2)), decode(e ^ 0b0100000000000100));
    assert_eq!(Some((w, 2)), decode(e ^ 0b1000000000001000));

    for i in 0..1u16 << 8 {
        assert_eq!(decode(encode(i as u8)).unwrap().0, i as u8);
    }
}

#[test]
fn test_rotate_17() {
    assert_eq!(rotate_17(0b00000000000000000), 0b00000000000000000);
    assert_eq!(rotate_17(0b10000000000000000), 0b01000000000000000);
    assert_eq!(rotate_17(0b01000000000000000), 0b00100000000000000);
    assert_eq!(rotate_17(0b00100000000000000), 0b00010000000000000);
    assert_eq!(rotate_17(0b00010000000000000), 0b00001000000000000);
    assert_eq!(rotate_17(0b00001000000000000), 0b00000100000000000);
    assert_eq!(rotate_17(0b00000100000000000), 0b00000010000000000);
    assert_eq!(rotate_17(0b00000010000000000), 0b00000001000000000);
    assert_eq!(rotate_17(0b00000001000000000), 0b00000000100000000);
    assert_eq!(rotate_17(0b00000000100000000), 0b00000000010000000);
    assert_eq!(rotate_17(0b00000000010000000), 0b00000000001000000);
    assert_eq!(rotate_17(0b00000000001000000), 0b00000000000100000);
    assert_eq!(rotate_17(0b00000000000100000), 0b00000000000010000);
    assert_eq!(rotate_17(0b00000000000010000), 0b00000000000001000);
    assert_eq!(rotate_17(0b00000000000001000), 0b00000000000000100);
    assert_eq!(rotate_17(0b00000000000000100), 0b00000000000000010);
    assert_eq!(rotate_17(0b00000000000000010), 0b00000000000000001);
    assert_eq!(rotate_17(0b00000000000000001), 0b10000000000000000);
    assert_eq!(rotate_17(0b01111111111111111), 0b10111111111111111);

    let mut word = 0b11100011001010101;

    for _ in 0..17 {
        word = rotate_17(word);
    }

    assert_eq!(word, 0b11100011001010101);
}
