use ignite_core::{AccountId, Amount, VaultError, VaultState};

fn amt(x: u64) -> Amount {
    Amount::from_u64(x)
}

fn admin() -> AccountId {
    AccountId::from_u64(1)
}

fn alice() -> AccountId {
    AccountId::from_u64(2)
}

fn book() -> AccountId {
    AccountId::from_u64(3)
}

#[test]
fn test_lock_records_exact_amount() {
    let mut vault = VaultState::new(admin());
    vault
        .lock_cspr(alice(), "order-1".to_string(), &amt(500))
        .unwrap();
    assert_eq!(vault.get_locked_amount(&"order-1".to_string()), amt(500));
    assert_eq!(vault.get_locked_amount(&"order-2".to_string()), amt(0));
}

#[test]
fn test_lock_rejects_zero_amount() {
    let mut vault = VaultState::new(admin());
    let r = vault.lock_cspr(alice(), "order-1".to_string(), &amt(0));
    assert_eq!(r, Err(VaultError::InvalidAmount));
}

#[test]
fn test_lock_rejects_relock() {
    let mut vault = VaultState::new(admin());
    vault
        .lock_cspr(alice(), "order-1".to_string(), &amt(500))
        .unwrap();
    let r = vault.lock_cspr(alice(), "order-1".to_string(), &amt(9));
    assert_eq!(r, Err(VaultError::AlreadyLocked));
    assert_eq!(vault.get_locked_amount(&"order-1".to_string()), amt(500));
}

#[test]
fn test_unlock_partial_is_exact() {
    // After lock(id, 500), unlock(id, r, 200) leaves locked(id) == 300.
    let mut vault = VaultState::new(admin());
    vault
        .lock_cspr(alice(), "order-1".to_string(), &amt(500))
        .unwrap();
    vault
        .unlock_cspr(admin(), &"order-1".to_string(), alice(), &amt(200))
        .unwrap();
    assert_eq!(vault.get_locked_amount(&"order-1".to_string()), amt(300));
    vault
        .unlock_cspr(admin(), &"order-1".to_string(), alice(), &amt(300))
        .unwrap();
    assert_eq!(vault.get_locked_amount(&"order-1".to_string()), amt(0));
    let r = vault.unlock_cspr(admin(), &"order-1".to_string(), alice(), &amt(1));
    assert_eq!(r, Err(VaultError::InsufficientBalance));
}

#[test]
fn test_unlock_unknown_order() {
    let mut vault = VaultState::new(admin());
    let r = vault.unlock_cspr(admin(), &"nope".to_string(), alice(), &amt(1));
    assert_eq!(r, Err(VaultError::OrderNotFound));
}

#[test]
fn test_unlock_requires_admin_or_order_book() {
    let mut vault = VaultState::new(admin());
    vault
        .lock_cspr(alice(), "order-1".to_string(), &amt(500))
        .unwrap();
    let r = vault.unlock_cspr(alice(), &"order-1".to_string(), alice(), &amt(100));
    assert_eq!(r, Err(VaultError::NotAuthorized));
    vault.set_order_book(admin(), book()).unwrap();
    vault
        .unlock_cspr(book(), &"order-1".to_string(), alice(), &amt(100))
        .unwrap();
    assert_eq!(vault.get_locked_amount(&"order-1".to_string()), amt(400));
}

#[test]
fn test_default_order_book_identity_never_authorized() {
    // Before set_order_book, the stored order-book identity is the all-zero
    // default; a caller with that identity must still be rejected.
    let mut vault = VaultState::new(admin());
    vault
        .lock_cspr(alice(), "order-1".to_string(), &amt(500))
        .unwrap();
    let r = vault.unlock_cspr(AccountId::nil(), &"order-1".to_string(), alice(), &amt(1));
    assert_eq!(r, Err(VaultError::NotAuthorized));
}

#[test]
fn test_set_order_book_only_admin() {
    let mut vault = VaultState::new(admin());
    assert_eq!(
        vault.set_order_book(alice(), book()),
        Err(VaultError::NotAuthorized)
    );
    assert_eq!(vault.set_order_book(admin(), book()), Ok(()));
}

#[test]
fn test_cancel_refunds_exact_remainder() {
    // cancel_order after a partial unlock refunds exactly the remaining
    // locked value and zeroes the entry.
    let mut vault = VaultState::new(admin());
    vault
        .lock_cspr(alice(), "order-1".to_string(), &amt(500))
        .unwrap();
    vault
        .unlock_cspr(admin(), &"order-1".to_string(), alice(), &amt(200))
        .unwrap();
    let refund = vault.cancel_order(alice(), &"order-1".to_string()).unwrap();
    assert_eq!(refund, amt(300));
    assert_eq!(vault.get_locked_amount(&"order-1".to_string()), amt(0));
    // Cancelling again is a no-op success refunding zero.
    let again = vault.cancel_order(alice(), &"order-1".to_string()).unwrap();
    assert_eq!(again, amt(0));
}

#[test]
fn test_cancel_only_by_owner() {
    let mut vault = VaultState::new(admin());
    vault
        .lock_cspr(alice(), "order-1".to_string(), &amt(500))
        .unwrap();
    let r = vault.cancel_order(admin(), &"order-1".to_string());
    assert_eq!(r, Err(VaultError::NotOrderOwner));
    let r = vault.cancel_order(alice(), &"missing".to_string());
    assert_eq!(r, Err(VaultError::OrderNotFound));
}

#[test]
fn test_two_orders_are_independent() {
    let mut vault = VaultState::new(admin());
    vault
        .lock_cspr(alice(), "order-1".to_string(), &amt(500))
        .unwrap();
    vault
        .lock_cspr(book(), "order-2".to_string(), &amt(70))
        .unwrap();
    vault
        .unlock_cspr(admin(), &"order-1".to_string(), alice(), &amt(500))
        .unwrap();
    assert_eq!(vault.get_locked_amount(&"order-1".to_string()), amt(0));
    assert_eq!(vault.get_locked_amount(&"order-2".to_string()), amt(70));
}
