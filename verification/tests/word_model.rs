use prover::word::Word;

#[test]
fn word_low_half_reconstructs_little_endian() {
    let mut cells = vec![0u8; 32];
    cells[0] = 0x01;
    cells[1] = 0x02;
    let w = Word::from_le_bytes(cells);
    assert_eq!(w.lo_half(), 0x0201);
    assert_eq!(w.hi_half(), 0);
}

#[test]
fn word_high_half_reconstructs_little_endian() {
    let mut cells = vec![0u8; 32];
    cells[16] = 0x05;
    cells[31] = 0x80;
    let w = Word::from_le_bytes(cells);
    assert_eq!(w.lo_half(), 0);
    assert_eq!(w.hi_half(), 0x80000000000000000000000000000005);
    assert_eq!(w.msb(), 0x80);
}

#[test]
fn word_big_endian_reverses_cells() {
    let mut bytes = vec![0u8; 32];
    bytes[0] = 0xab;
    bytes[31] = 0xcd;
    let w = Word::from_be_bytes(&bytes);
    assert_eq!(w.cells[31], 0xab);
    assert_eq!(w.cells[0], 0xcd);
}

#[test]
fn word_round_trip_concrete() {
    // Decompose 0x01fe into cells and reconstruct it through the halves:
    // no information is lost for any 256-bit value.
    let mut cells = vec![0u8; 32];
    cells[0] = 0xfe;
    cells[1] = 0x01;
    let w = Word::from_le_bytes(cells);
    assert_eq!(w.lo_half() + w.hi_half(), 0x01fe);
    assert!(w.is_small_value(0) == false);
    let zero = Word::from_le_bytes(vec![0u8; 32]);
    assert!(zero.is_small_value(0));
    let mut one_cells = vec![0u8; 32];
    one_cells[0] = 1;
    let one = Word::from_le_bytes(one_cells);
    assert!(one.is_small_value(1));
    assert!(!one.is_small_value(0));
}

#[test]
fn word_duplicate_copies_cells() {
    let mut cells = vec![7u8; 32];
    cells[3] = 9;
    let w = Word::from_le_bytes(cells);
    let c = w.duplicate();
    assert_eq!(w.cells, c.cells);
}
