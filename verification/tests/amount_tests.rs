use multisig_engine::amount::Amount;

#[test]
fn from_u64_gives_big_endian_bytes() {
    assert_eq!(Amount::from_u64(256).bytes, vec![1u8, 0]);
    assert_eq!(Amount::from_u64(0).bytes, vec![0u8]);
    assert_eq!(Amount::from_u64(u64::MAX).bytes, vec![255u8; 8]);
    assert_eq!(Amount::from_u64(0x0102_0304).bytes, vec![1u8, 2, 3, 4]);
}

#[test]
fn plus_adds_the_numbers() {
    let a = Amount::from_u64(255);
    let b = Amount::from_u64(1);
    assert_eq!(a.plus(&b).bytes, vec![1u8, 0]);
    assert_eq!(a.plus(&b), Amount::from_u64(256));
    assert_ne!(a.plus(&b), a);
}

#[test]
fn plus_goes_beyond_sixty_four_bits() {
    let max = Amount::from_u64(u64::MAX);
    let sum = max.plus(&Amount::from_u64(1));
    assert_eq!(sum.bytes, vec![1u8, 0, 0, 0, 0, 0, 0, 0, 0]);
    assert!(sum.at_least(&max));
    assert!(!max.at_least(&sum));
}

#[test]
fn plus_zero_keeps_the_value() {
    let a = Amount::from_bytes_be(vec![0, 0, 5]);
    assert_eq!(a.plus(&Amount::zero()), Amount::from_u64(5));
    assert_eq!(Amount::zero().plus(&Amount::zero()), Amount::from_u64(0));
}

#[test]
fn at_least_compares_the_numbers_not_the_lengths() {
    let padded_small = Amount::from_bytes_be(vec![0, 0, 0, 2]);
    let big = Amount::from_bytes_be(vec![3]);
    assert!(big.at_least(&padded_small));
    assert!(!padded_small.at_least(&big));
    assert!(big.at_least(&big));
}

#[test]
fn equality_ignores_leading_zero_bytes() {
    assert_eq!(Amount::from_bytes_be(vec![0, 7]), Amount::from_bytes_be(vec![7]));
    assert_eq!(Amount::zero(), Amount::from_bytes_be(vec![0, 0]));
    assert_ne!(Amount::from_bytes_be(vec![7, 0]), Amount::from_bytes_be(vec![7]));
}

#[test]
fn is_zero_looks_at_every_byte() {
    assert!(Amount::zero().is_zero());
    assert!(Amount::from_bytes_be(vec![0, 0, 0]).is_zero());
    assert!(Amount::from_u64(0).is_zero());
    assert!(!Amount::from_bytes_be(vec![0, 1, 0]).is_zero());
    assert!(!Amount::from_u64(1).is_zero());
}

#[test]
fn duplicate_copies_the_bytes() {
    let a = Amount::from_bytes_be(vec![0, 9, 8]);
    assert_eq!(a.duplicate().bytes, vec![0u8, 9, 8]);
}
