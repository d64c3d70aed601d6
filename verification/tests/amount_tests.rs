use ignite_core::{AccountId, Amount};

fn amt(x: u64) -> Amount {
    Amount::from_u64(x)
}

// 2^64, the first value with a second limb.
fn two_pow_64() -> Amount {
    Amount { l0: 0, l1: 1, l2: 0, l3: 0, l4: 0, l5: 0, l6: 0, l7: 0 }
}

#[test]
fn test_add_carries_across_limbs() {
    let a = amt(u64::MAX);
    let sum = a.checked_add(&amt(1)).unwrap();
    assert_eq!(sum, two_pow_64());
}

#[test]
fn test_add_overflow_is_none() {
    let r = Amount::max_value().checked_add(&amt(1));
    assert_eq!(r, None);
    assert_eq!(Amount::max_value().checked_add(&amt(0)), Some(Amount::max_value()));
}

#[test]
fn test_sub_borrows_across_limbs() {
    let r = two_pow_64().checked_sub(&amt(1)).unwrap();
    assert_eq!(r, amt(u64::MAX));
    assert_eq!(amt(5).checked_sub(&amt(6)), None);
}

#[test]
fn test_mul_reaches_higher_limbs() {
    // 2^64 * 2^64 = 2^128.
    let sq = two_pow_64().checked_mul(&two_pow_64()).unwrap();
    assert_eq!(sq, Amount { l0: 0, l1: 0, l2: 1, l3: 0, l4: 0, l5: 0, l6: 0, l7: 0 });
    assert_eq!(Amount::max_value().checked_mul(&amt(2)), None);
    assert_eq!(amt(1_000_000_007).checked_mul(&amt(3)), Some(amt(3_000_000_021)));
}

#[test]
fn test_div_floors_and_rejects_zero_divisor() {
    let sq = two_pow_64().checked_mul(&two_pow_64()).unwrap();
    assert_eq!(sq.checked_div(&two_pow_64()), Some(two_pow_64()));
    assert_eq!(amt(7).checked_div(&amt(2)), Some(amt(3)));
    assert_eq!(amt(7).checked_div(&amt(0)), None);
}

#[test]
fn test_comparisons_cross_limbs() {
    assert!(amt(u64::MAX).lt(&two_pow_64()));
    assert!(!two_pow_64().lt(&amt(u64::MAX)));
    assert!(amt(3).lt(&amt(4)));
    assert!(!amt(4).lt(&amt(4)));
    assert!(amt(4).le(&amt(4)));
    assert!(amt(0).is_zero());
    assert!(!two_pow_64().is_zero());
}

#[test]
fn test_account_identifiers() {
    assert!(AccountId::nil().is_nil());
    assert!(!AccountId::from_u64(1).is_nil());
    assert_eq!(AccountId::from_u64(7), AccountId::from_u64(7));
    assert_ne!(AccountId::from_u64(7), AccountId::from_u64(8));
}
