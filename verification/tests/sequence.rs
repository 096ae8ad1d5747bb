use psst_core::sequence::Sequence;

#[test]
fn new_then_advance_returns_initial_value() {
    let mut s: Sequence<u32> = Sequence::new(7);
    assert_eq!(s.advance(), 7);
    assert_eq!(s.advance(), 8);
    assert_eq!(s.advance(), 9);
}

#[test]
fn advance_starts_at_zero() {
    let mut s: Sequence<u64> = Sequence::new(0);
    assert_eq!(s.advance(), 0);
    assert_eq!(s.advance(), 1);
}

#[test]
fn u8_full_wraparound_returns_first_value_twice() {
    // 2^8 + 1 calls: the first and the last return the same value.
    let mut s: Sequence<u8> = Sequence::new(42);
    let first = s.advance();
    let mut last = first;
    for _ in 0..256 {
        last = s.advance();
    }
    assert_eq!(first, 42);
    assert_eq!(last, 42);
}

#[test]
fn u16_full_wraparound_returns_first_value_twice() {
    let mut s: Sequence<u16> = Sequence::new(0xFFF0);
    let first = s.advance();
    let mut last = first;
    for _ in 0..0x1_0000 {
        last = s.advance();
    }
    assert_eq!(first, 0xFFF0);
    assert_eq!(last, 0xFFF0);
}

#[test]
fn wraps_at_top_of_space_without_panic() {
    let mut s: Sequence<u32> = Sequence::new(u32::MAX);
    assert_eq!(s.advance(), u32::MAX);
    assert_eq!(s.advance(), 0);
    let mut t: Sequence<u8> = Sequence::new(u8::MAX);
    assert_eq!(t.advance(), 255);
    assert_eq!(t.advance(), 0);
}
