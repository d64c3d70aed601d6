use ignite_core::{AccountId, AmmError, Amount, CurveState};

fn amt(x: u64) -> Amount {
    Amount::from_u64(x)
}

fn admin() -> AccountId {
    AccountId::from_u64(1)
}

fn alice() -> AccountId {
    AccountId::from_u64(2)
}

fn initialized_curve() -> CurveState {
    let mut curve = CurveState::new(admin());
    curve
        .initialize(admin(), amt(1_000_000_000), amt(1000))
        .unwrap();
    curve
}

#[test]
fn test_initialize_rejects_non_admin() {
    let mut curve = CurveState::new(admin());
    let r = curve.initialize(alice(), amt(1_000_000_000), amt(1000));
    assert_eq!(r, Err(AmmError::NotAuthorized));
}

#[test]
fn test_initialize_rejects_zero_price() {
    let mut curve = CurveState::new(admin());
    let r = curve.initialize(admin(), amt(0), amt(1000));
    assert_eq!(r, Err(AmmError::InvalidAmount));
}

#[test]
fn test_initialize_rejects_second_call() {
    let mut curve = initialized_curve();
    let r = curve.initialize(admin(), amt(5), amt(5));
    assert_eq!(r, Err(AmmError::AlreadyInitialized));
}

#[test]
fn test_buy_requires_initialization() {
    let mut curve = CurveState::new(admin());
    let r = curve.buy(alice(), &amt(100), &Amount::max_value());
    assert_eq!(r, Err(AmmError::NotInitialized));
}

#[test]
fn test_buy_rejects_zero_amount() {
    let mut curve = initialized_curve();
    let r = curve.buy(alice(), &amt(0), &Amount::max_value());
    assert_eq!(r, Err(AmmError::InvalidAmount));
}

#[test]
fn test_buy_cost_concrete_scenario() {
    // initial_price = 1 CSPR, reserve_ratio = 1000 bps, buy 100 from supply 0:
    // cost = 100 * 10^9 + (10^9 * 1000 * 100^2) / (20000 * 10^9)
    //      = 100_000_000_000 + 500
    let mut curve = initialized_curve();
    let cost = curve.buy(alice(), &amt(100), &Amount::max_value()).unwrap();
    assert_eq!(cost, amt(100_000_000_500));
    assert_eq!(curve.get_supply(), amt(100));
    assert_eq!(curve.get_reserve(), amt(100_000_000_500));
    assert_eq!(curve.get_balance(&alice()), amt(100));
}

#[test]
fn test_buy_slippage_exceeded_leaves_state() {
    let mut curve = initialized_curve();
    let r = curve.buy(alice(), &amt(100), &amt(100_000_000_499));
    assert_eq!(r, Err(AmmError::SlippageExceeded));
    assert_eq!(curve.get_supply(), amt(0));
    assert_eq!(curve.get_reserve(), amt(0));
    assert_eq!(curve.get_balance(&alice()), amt(0));
}

#[test]
fn test_buy_exact_max_cost_is_accepted() {
    let mut curve = initialized_curve();
    let r = curve.buy(alice(), &amt(100), &amt(100_000_000_500));
    assert_eq!(r, Ok(amt(100_000_000_500)));
}

#[test]
fn test_price_monotonic_concrete() {
    // price(s) = 10^9 + (10^9 * 1000 / 10000) * s / 10^9 = 10^9 + s / 10.
    let curve = initialized_curve();
    let p0 = curve.price_at(&amt(0)).unwrap();
    let p10 = curve.price_at(&amt(10)).unwrap();
    let p1000 = curve.price_at(&amt(1000)).unwrap();
    assert_eq!(p0, amt(1_000_000_000));
    assert_eq!(p10, amt(1_000_000_001));
    assert_eq!(p1000, amt(1_000_000_100));
    assert!(p0 == amt(1_000_000_000) && p10 == amt(1_000_000_001));
}

#[test]
fn test_get_price_tracks_supply() {
    let mut curve = initialized_curve();
    assert_eq!(curve.get_price(), Ok(amt(1_000_000_000)));
    curve.buy(alice(), &amt(1000), &Amount::max_value()).unwrap();
    assert_eq!(curve.get_price(), Ok(amt(1_000_000_100)));
}

#[test]
fn test_round_trip_returns_cost() {
    // Buying and immediately selling the same amount yields proceeds equal
    // to the cost, never more.
    let mut curve = initialized_curve();
    let cost = curve.buy(alice(), &amt(100), &Amount::max_value()).unwrap();
    let proceeds = curve.sell(alice(), &amt(100), &amt(0)).unwrap();
    assert_eq!(proceeds, cost);
    assert_eq!(curve.get_supply(), amt(0));
    assert_eq!(curve.get_reserve(), amt(0));
    assert_eq!(curve.get_balance(&alice()), amt(0));
}

#[test]
fn test_conservation_over_trade_sequence() {
    // Over any sequence of buys and sells the reserve moves by the sum of
    // costs minus the sum of proceeds, and the supply by the token flow.
    let mut curve = initialized_curve();
    let reserve_before = curve.get_reserve();
    let c1 = curve.buy(alice(), &amt(100), &Amount::max_value()).unwrap();
    let c2 = curve.buy(alice(), &amt(250), &Amount::max_value()).unwrap();
    let p1 = curve.sell(alice(), &amt(70), &amt(0)).unwrap();
    let c3 = curve.buy(alice(), &amt(30), &Amount::max_value()).unwrap();
    let p2 = curve.sell(alice(), &amt(200), &amt(0)).unwrap();
    let reserve_after = curve.get_reserve();
    let paid_in = c1
        .checked_add(&c2)
        .unwrap()
        .checked_add(&c3)
        .unwrap();
    let paid_out = p1.checked_add(&p2).unwrap();
    assert_eq!(
        reserve_after,
        reserve_before
            .checked_add(&paid_in)
            .unwrap()
            .checked_sub(&paid_out)
            .unwrap()
    );
    // 100 + 250 - 70 + 30 - 200 = 110 tokens outstanding.
    assert_eq!(curve.get_supply(), amt(110));
    assert_eq!(curve.get_balance(&alice()), amt(110));
}

#[test]
fn test_sell_insufficient_tokens() {
    let mut curve = initialized_curve();
    curve.buy(alice(), &amt(50), &Amount::max_value()).unwrap();
    let r = curve.sell(alice(), &amt(51), &amt(0));
    assert_eq!(r, Err(AmmError::InsufficientTokens));
}

#[test]
fn test_sell_slippage_exceeded() {
    let mut curve = initialized_curve();
    let cost = curve.buy(alice(), &amt(100), &Amount::max_value()).unwrap();
    let want_more = cost.checked_add(&amt(1)).unwrap();
    let r = curve.sell(alice(), &amt(100), &want_more);
    assert_eq!(r, Err(AmmError::SlippageExceeded));
}

#[test]
fn test_sell_insufficient_reserve_after_withdraw() {
    let mut curve = initialized_curve();
    curve.buy(alice(), &amt(100), &Amount::max_value()).unwrap();
    curve.admin_withdraw(admin(), alice(), &amt(1)).unwrap();
    let r = curve.sell(alice(), &amt(100), &amt(0));
    assert_eq!(r, Err(AmmError::InsufficientReserve));
}

#[test]
fn test_buy_overflow_is_math_overflow() {
    let mut curve = CurveState::new(admin());
    curve
        .initialize(admin(), Amount::max_value(), Amount::max_value())
        .unwrap();
    let r = curve.buy(alice(), &amt(1), &Amount::max_value());
    assert_eq!(r, Err(AmmError::MathOverflow));
}

#[test]
fn test_deposit_reserve_admin_only() {
    let mut curve = initialized_curve();
    assert_eq!(
        curve.deposit_reserve(alice(), &amt(5)),
        Err(AmmError::NotAuthorized)
    );
    assert_eq!(
        curve.deposit_reserve(admin(), &amt(0)),
        Err(AmmError::InvalidAmount)
    );
    assert_eq!(curve.deposit_reserve(admin(), &amt(5)), Ok(()));
    assert_eq!(curve.get_reserve(), amt(5));
}

#[test]
fn test_admin_withdraw_checks() {
    let mut curve = initialized_curve();
    curve.deposit_reserve(admin(), &amt(10)).unwrap();
    assert_eq!(
        curve.admin_withdraw(alice(), alice(), &amt(1)),
        Err(AmmError::NotAuthorized)
    );
    assert_eq!(
        curve.admin_withdraw(admin(), alice(), &amt(11)),
        Err(AmmError::InsufficientReserve)
    );
    assert_eq!(curve.admin_withdraw(admin(), alice(), &amt(4)), Ok(()));
    assert_eq!(curve.get_reserve(), amt(6));
}
