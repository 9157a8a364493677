use ibm701::accumulator::Accumulator;

#[test]
fn insert_keeps_sign_and_magnitude() {
    let mut acc = Accumulator::default();
    acc.insert(-5);
    assert_eq!(acc.value_as_i64(), -5);
    assert!(acc.sign);
    acc.insert(5);
    assert_eq!(acc.value_as_i64(), 5);
    assert!(!acc.sign);
    acc.insert(0);
    assert!(!acc.sign);
    assert_eq!(acc.value, 0);
}

#[test]
fn insert_replaces_the_magnitude() {
    let mut acc = Accumulator::default();
    acc.insert(0b1010);
    acc.insert(0b0101);
    assert_eq!(acc.value, 0b0101);
}

#[test]
fn insert_truncates_to_35_bits() {
    let mut acc = Accumulator::default();
    acc.insert(0x8_0000_0003);
    assert_eq!(acc.value, 3);
    acc.insert(-0x8_0000_0003);
    assert_eq!(acc.value_as_i64(), -3);
}

#[test]
fn insert_leaves_overflow_alone() {
    let mut acc = Accumulator::default();
    acc.overflow = true;
    acc.insert(1 << 19);
    assert!(acc.overflow);
}

#[test]
fn add_across_bit_eighteen_sets_overflow() {
    let mut acc = Accumulator::default();
    acc.insert((1 << 18) - 1);
    acc.add(1);
    assert_eq!(acc.value_as_i64(), 1 << 18);
    assert!(acc.overflow);
}

#[test]
fn add_within_pq_pair_clears_overflow() {
    let mut acc = Accumulator::default();
    acc.insert((1 << 18) - 1);
    acc.add(1);
    assert!(acc.overflow);
    acc.add(100);
    assert_eq!(acc.value_as_i64(), (1 << 18) + 100);
    assert!(!acc.overflow);
}

#[test]
fn add_signed_values() {
    let mut acc = Accumulator::default();
    acc.insert(10);
    acc.add(-25);
    assert_eq!(acc.value_as_i64(), -15);
    acc.add(15);
    assert_eq!(acc.value_as_i64(), 0);
    assert!(!acc.sign);
}

#[test]
fn add_wraps_the_magnitude() {
    let mut acc = Accumulator::default();
    acc.insert(0x7_FFFF_FFFC);
    acc.add(7);
    assert_eq!(acc.value_as_i64(), 3);
    assert!(acc.overflow);
}

#[test]
fn test_pq_reads_bits_eighteen_and_nineteen() {
    assert_eq!(Accumulator::test_pq(0), (false, false));
    assert_eq!(Accumulator::test_pq(1 << 18), (true, false));
    assert_eq!(Accumulator::test_pq(1 << 19), (false, true));
    assert_eq!(Accumulator::test_pq(0b11 << 18), (true, true));
    assert_eq!(Accumulator::test_pq((1 << 17) | (1 << 20)), (false, false));
}

#[test]
fn reset_clears_value_but_not_overflow() {
    let mut acc = Accumulator::default();
    acc.insert((1 << 18) - 1);
    acc.add(1);
    acc.insert(-9);
    acc.reset();
    assert!(!acc.sign);
    assert_eq!(acc.value, 0);
    assert!(acc.overflow);
}
