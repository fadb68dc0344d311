use pos_creator::big_uint::BigUint;

fn digits(d: &[u32]) -> BigUint {
    BigUint::from_u32_digits(d.to_vec())
}

#[test]
fn from_u128_digits() {
    assert_eq!(BigUint::from_u128(0).to_u32_digits(), Vec::<u32>::new());
    assert_eq!(BigUint::from_u128(5).to_u32_digits(), vec![5]);
    assert_eq!(BigUint::from_u128(1u128 << 32).to_u32_digits(), vec![0, 1]);
    assert_eq!(BigUint::from_u128(u128::MAX).to_u32_digits(), vec![u32::MAX; 4]);
    // trailing zero digits are dropped
    assert_eq!(digits(&[7, 0, 0]), BigUint::from_u128(7));
}

#[test]
fn halving() {
    assert_eq!(BigUint::from_u128(1_001).half(), BigUint::from_u128(500));
    assert_eq!(BigUint::from_u128(1).half(), BigUint::zero());
    assert_eq!(BigUint::from_u128(1u128 << 32).half(), BigUint::from_u128(1u128 << 31));
    // 2^128 + 1 halves to 2^127
    assert_eq!(digits(&[1, 0, 0, 0, 1]).half(), digits(&[0, 0, 0, 0x8000_0000]));
}

#[test]
fn subtraction_and_order() {
    let big = digits(&[1, 0, 0, 0, 1]);
    let half = big.half();
    assert_eq!(big.sub(&half), digits(&[1, 0, 0, 0x8000_0000]));
    assert_eq!(BigUint::from_u128(1u128 << 32).sub(&BigUint::from_u128(1)), BigUint::from_u128(u32::MAX as u128));
    assert!(half.le(&big));
    assert!(!big.le(&half));
    assert!(big.le(&big));
    assert!(BigUint::zero().is_zero());
    assert!(digits(&[0, 0]).is_zero());
    assert!(!big.is_zero());
}
