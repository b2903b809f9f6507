use basset_vault::bignum::{Decimal256, Uint256};

const ONE: u128 = 1_000_000_000_000_000_000;

fn dec(atomics: u128) -> Decimal256 {
    Decimal256::from_atomics(Uint256::from_u128(atomics))
}

#[test]
fn uint256_from_u128_splits_into_limbs() {
    let x = Uint256::from_u128((1u128 << 64) + 5);
    assert_eq!(x.to_limbs(), [5, 1, 0, 0]);
    assert_eq!(Uint256::from_u128(u128::MAX).to_limbs(), [u64::MAX, u64::MAX, 0, 0]);
    assert_eq!(Uint256::zero().to_limbs(), [0, 0, 0, 0]);
    assert_eq!(Uint256::default(), Uint256::zero());
}

#[test]
fn uint256_sub_borrows_across_limbs() {
    let a = Uint256::from_limbs([0, 1, 0, 0]);
    let b = Uint256::from_u128(1);
    assert_eq!(a.sub(b), Uint256::from_u128(u64::MAX as u128));
    assert_eq!(Uint256::from_u128(10).sub(Uint256::from_u128(3)), Uint256::from_u128(7));
}

#[test]
fn uint256_le_compares_numbers() {
    let small = Uint256::from_limbs([u64::MAX, 0, 0, 0]);
    let big = Uint256::from_limbs([0, 0, 0, 1]);
    assert!(small.le(big));
    assert!(!big.le(small));
    assert!(big.le(big));
}

#[test]
fn uint256_checked_add_reports_overflow() {
    let max = Uint256::from_limbs([u64::MAX; 4]);
    assert_eq!(max.checked_add(Uint256::from_u128(1)), None);
    assert_eq!(max.checked_add(Uint256::zero()), Some(max));
    assert_eq!(
        Uint256::from_u128(u128::MAX).checked_add(Uint256::from_u128(1)),
        Some(Uint256::from_limbs([0, 0, 1, 0]))
    );
}

#[test]
fn uint256_checked_mul_reports_overflow() {
    let half = Uint256::from_limbs([0, 0, 1, 0]); // 2^128
    assert_eq!(half.checked_mul(half), None);
    assert_eq!(
        half.checked_mul(Uint256::from_u128(3)),
        Some(Uint256::from_limbs([0, 0, 3, 0]))
    );
}

#[test]
fn decimal_from_uint256_scales_by_ten_to_eighteen() {
    let d = Decimal256::from_uint256(Uint256::from_u128(3));
    assert_eq!(d, dec(3 * ONE));
    assert_eq!(Decimal256::zero(), dec(0));
    assert_eq!(Decimal256::default(), dec(0));
}

#[test]
fn decimal_arithmetic() {
    let a = dec(ONE + ONE / 2); // 1.5
    let b = dec(2 * ONE); // 2.0
    assert_eq!(a.add(b), dec(3 * ONE + ONE / 2));
    assert_eq!(b.sub(a), dec(ONE / 2));
    assert_eq!(a.mul(b), dec(3 * ONE));
    // 10^-18 * 0.5 rounds down to zero
    assert_eq!(dec(1).mul(dec(ONE / 2)), dec(0));
    assert!(b.gt(a));
    assert!(!a.gt(b));
    assert!(!a.gt(a));
}


#[test]
fn equal_values_have_equal_limbs() {
    assert_eq!(Uint256::from_u128(1u128 << 64), Uint256::from_limbs([0, 1, 0, 0]));
    assert_eq!(Uint256::from_u128(7).sub(Uint256::from_u128(7)), Uint256::zero());
}
