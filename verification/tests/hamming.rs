use fec::hamming::{shortened, standard};

#[test]
fn test_standard() {
    let w = 0b10101010101;
    let e = standard::encode(w);
    assert_eq!(standard::decode(e ^ 0b000000000000000).unwrap().0, w);
    assert_eq!(standard::decode(e ^ 0b000000000000001).unwrap().0, w);
    assert_eq!(standard::decode(e ^ 0b000000000000010).unwrap().0, w);
    assert_eq!(standard::decode(e ^ 0b000000000000100).unwrap().0, w);
    assert_eq!(standard::decode(e ^ 0b000000000001000).unwrap().0, w);
    assert_eq!(standard::decode(e ^ 0b000000000010000).unwrap().0, w);
    assert_eq!(standard::decode(e ^ 0b000000000100000).unwrap().0, w);
    assert_eq!(standard::decode(e ^ 0b000000001000000).unwrap().0, w);
    assert_eq!(standard::decode(e ^ 0b000000010000000).unwrap().0, w);
    assert_eq!(standard::decode(e ^ 0b000000100000000).unwrap().0, w);
    assert_eq!(standard::decode(e ^ 0b000001000000000).unwrap().0, w);
    assert_eq!(standard::decode(e ^ 0b000010000000000).unwrap().0, w);
    assert_eq!(standard::decode(e ^ 0b000100000000000).unwrap().0, w);
    assert_eq!(standard::decode(e ^ 0b001000000000000).unwrap().0, w);
    assert_eq!(standard::decode(e ^ 0b010000000000000).unwrap().0, w);
    assert_eq!(standard::decode(e ^ 0b100000000000000).unwrap().0, w);

    for i in 0..1 << 11 {
        assert_eq!(standard::decode(standard::encode(i)).unwrap().0, i);
    }
}

#[test]
fn test_shortened() {
    let w = 0b110011;
    let e = shortened::encode(w);
    assert_eq!(shortened::decode(e ^ 0b0000000000).unwrap().0, w);
    assert_eq!(shortened::decode(e ^ 0b0000000001).unwrap().0, w);
    assert_eq!(shortened::decode(e ^ 0b0000000010).unwrap().0, w);
    assert_eq!(shortened::decode(e ^ 0b0000000100).unwrap().0, w);
    assert_eq!(shortened::decode(e ^ 0b0000001000).unwrap().0, w);
    assert_eq!(shortened::decode(e ^ 0b0000010000).unwrap().0, w);
    assert_eq!(shortened::decode(e ^ 0b0000100000).unwrap().0, w);
    assert_eq!(shortened::decode(e ^ 0b0001000000).unwrap().0, w);
    assert_eq!(shortened::decode(e ^ 0b0010000000).unwrap().0, w);
    assert_eq!(shortened::decode(e ^ 0b0100000000).unwrap().0, w);
    assert_eq!(shortened::decode(e ^ 0b1000000000).unwrap().0, w);

    for i in 0..1 << 6 {
        assert_eq!(shortened::decode(shortened::encode(i)).unwrap().0, i);
    }
}
