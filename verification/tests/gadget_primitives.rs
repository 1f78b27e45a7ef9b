use prover::gadgets::{assign_comparison, assign_is_equal, assign_lt, max_bytes_value};

#[test]
fn lt_gadget_single_byte() {
    let g = assign_lt(1, 5, 128);
    assert_eq!(g.lt, 1);
    // borrow chain: 5 - 128 == diff - 256
    assert_eq!(g.diff, 5 + 256 - 128);
    let g = assign_lt(1, 200, 128);
    assert_eq!(g.lt, 0);
    assert_eq!(g.diff, 72);
}

#[test]
fn lt_gadget_sixteen_bytes() {
    let a: u128 = 0x0102030405060708090a0b0c0d0e0f10;
    let b: u128 = 0x0102030405060708090a0b0c0d0e0f11;
    assert_eq!(assign_lt(16, a, b).lt, 1);
    assert_eq!(assign_lt(16, b, a).lt, 0);
    assert_eq!(assign_lt(16, a, a).lt, 0);
}

#[test]
fn comparison_gadget_pair() {
    let g = assign_comparison(16, 7, 7);
    assert_eq!(g.lt.lt, 0);
    assert_eq!(g.eq, 1);
    let g = assign_comparison(16, 6, 7);
    assert_eq!(g.lt.lt, 1);
    assert_eq!(g.eq, 0);
    let g = assign_comparison(16, 8, 7);
    assert_eq!(g.lt.lt, 0);
    assert_eq!(g.eq, 0);
}

#[test]
fn equality_gadget() {
    assert_eq!(assign_is_equal(0x13, 0x13), 1);
    assert_eq!(assign_is_equal(0x12, 0x13), 0);
}

#[test]
fn byte_capacity_values() {
    assert_eq!(max_bytes_value(1), 255);
    assert_eq!(max_bytes_value(2), 65535);
    assert_eq!(max_bytes_value(16), u128::MAX);
}
