use ignite_core::{AccountId, Amount, OrderBookError, OrderBookState, OrderSide, OrderStatus};

fn amt(x: u64) -> Amount {
    Amount::from_u64(x)
}

fn admin() -> AccountId {
    AccountId::from_u64(1)
}

fn alice() -> AccountId {
    AccountId::from_u64(2)
}

fn bob() -> AccountId {
    AccountId::from_u64(3)
}

#[test]
fn test_place_buy_order_escrows_cost() {
    let mut book = OrderBookState::new(admin());
    // cost = price * amount / SCALE = 2e9 * 3e9 / 1e9 = 6e9.
    let (id, cost) = book
        .place_buy_order(alice(), &amt(2_000_000_000), &amt(3_000_000_000))
        .unwrap();
    assert_eq!(id, 1);
    assert_eq!(cost, amt(6_000_000_000));
    let order = book.get_order(1).unwrap();
    assert_eq!(order.owner, alice());
    assert_eq!(order.side, OrderSide::Buy);
    assert_eq!(order.status, OrderStatus::Open);
    assert_eq!(order.filled, amt(0));
    assert_eq!(book.get_best_bid_ep(), amt(2_000_000_000));
}

#[test]
fn test_place_order_rejects_zero() {
    let mut book = OrderBookState::new(admin());
    assert_eq!(
        book.place_buy_order(alice(), &amt(0), &amt(5)),
        Err(OrderBookError::InvalidPrice)
    );
    assert_eq!(
        book.place_buy_order(alice(), &amt(5), &amt(0)),
        Err(OrderBookError::InvalidAmount)
    );
    assert_eq!(
        book.place_sell_order(alice(), &amt(0), &amt(5)),
        Err(OrderBookError::InvalidPrice)
    );
    assert_eq!(
        book.place_sell_order(alice(), &amt(5), &amt(0)),
        Err(OrderBookError::InvalidAmount)
    );
}

#[test]
fn test_place_buy_order_overflow() {
    let mut book = OrderBookState::new(admin());
    let r = book.place_buy_order(alice(), &Amount::max_value(), &amt(2));
    assert_eq!(r, Err(OrderBookError::MathOverflow));
}

#[test]
fn test_sell_order_needs_deposited_tokens() {
    let mut book = OrderBookState::new(admin());
    let r = book.place_sell_order(alice(), &amt(7), &amt(100));
    assert_eq!(r, Err(OrderBookError::InsufficientFunds));
    book.deposit_tokens(alice(), &amt(100)).unwrap();
    let id = book.place_sell_order(alice(), &amt(7), &amt(60)).unwrap();
    assert_eq!(id, 1);
    // The tokens are book-custodied now.
    let r = book.withdraw_tokens(alice(), &amt(41));
    assert_eq!(r, Err(OrderBookError::InsufficientFunds));
    assert_eq!(book.withdraw_tokens(alice(), &amt(40)), Ok(()));
}

#[test]
fn test_cancel_open_buy_refunds_full_cost() {
    // Cancelling an Open buy order refunds exactly price * amount / SCALE.
    let mut book = OrderBookState::new(admin());
    let (id, cost) = book
        .place_buy_order(alice(), &amt(2_000_000_000), &amt(3_000_000_000))
        .unwrap();
    let refund = book.cancel_order(alice(), id).unwrap();
    assert_eq!(refund, cost);
    assert_eq!(book.get_order(id).unwrap().status, OrderStatus::Cancelled);
}

#[test]
fn test_cancel_cancelled_order_fails() {
    // cancel_order on a Cancelled order fails OrderAlreadyFilled.
    let mut book = OrderBookState::new(admin());
    let (id, _) = book.place_buy_order(alice(), &amt(10), &amt(20)).unwrap();
    book.cancel_order(alice(), id).unwrap();
    let r = book.cancel_order(alice(), id);
    assert_eq!(r, Err(OrderBookError::OrderAlreadyFilled));
}

#[test]
fn test_cancel_only_by_owner_or_known_order() {
    let mut book = OrderBookState::new(admin());
    let (id, _) = book.place_buy_order(alice(), &amt(10), &amt(20)).unwrap();
    assert_eq!(
        book.cancel_order(bob(), id),
        Err(OrderBookError::NotAuthorized)
    );
    assert_eq!(
        book.cancel_order(alice(), 99),
        Err(OrderBookError::OrderNotFound)
    );
    assert_eq!(
        book.cancel_order(alice(), 0),
        Err(OrderBookError::OrderNotFound)
    );
}

#[test]
fn test_cancel_sell_returns_tokens() {
    let mut book = OrderBookState::new(admin());
    book.deposit_tokens(alice(), &amt(100)).unwrap();
    let id = book.place_sell_order(alice(), &amt(7), &amt(60)).unwrap();
    let returned = book.cancel_order(alice(), id).unwrap();
    assert_eq!(returned, amt(60));
    // The full deposit is available again.
    assert_eq!(book.withdraw_tokens(alice(), &amt(100)), Ok(()));
}

#[test]
fn test_best_bid_is_running_maximum() {
    let mut book = OrderBookState::new(admin());
    book.place_buy_order(alice(), &amt(10), &amt(1)).unwrap();
    book.place_buy_order(bob(), &amt(30), &amt(1)).unwrap();
    book.place_buy_order(alice(), &amt(20), &amt(1)).unwrap();
    assert_eq!(book.get_best_bid_ep(), amt(30));
}

#[test]
fn test_best_ask_is_running_minimum() {
    let mut book = OrderBookState::new(admin());
    assert_eq!(book.get_best_ask_ep(), Amount::max_value());
    book.deposit_tokens(alice(), &amt(10)).unwrap();
    book.place_sell_order(alice(), &amt(50), &amt(1)).unwrap();
    book.place_sell_order(alice(), &amt(20), &amt(1)).unwrap();
    book.place_sell_order(alice(), &amt(40), &amt(1)).unwrap();
    assert_eq!(book.get_best_ask_ep(), amt(20));
}

#[test]
fn test_best_bid_stays_stale_after_cancel() {
    // The running best bid is advisory: cancelling the order that holds the
    // extremum does not lower it.
    let mut book = OrderBookState::new(admin());
    let (top, _) = book.place_buy_order(alice(), &amt(30), &amt(1)).unwrap();
    book.place_buy_order(bob(), &amt(10), &amt(1)).unwrap();
    book.cancel_order(alice(), top).unwrap();
    assert_eq!(book.get_best_bid_ep(), amt(30));
}

#[test]
fn test_deposit_tokens_rejects_zero() {
    let mut book = OrderBookState::new(admin());
    assert_eq!(
        book.deposit_tokens(alice(), &amt(0)),
        Err(OrderBookError::InvalidAmount)
    );
    assert_eq!(
        book.withdraw_tokens(alice(), &amt(0)),
        Err(OrderBookError::InvalidAmount)
    );
}

#[test]
fn test_order_ids_are_sequential() {
    let mut book = OrderBookState::new(admin());
    let (a, _) = book.place_buy_order(alice(), &amt(1), &amt(1)).unwrap();
    let (b, _) = book.place_buy_order(alice(), &amt(2), &amt(1)).unwrap();
    book.deposit_tokens(bob(), &amt(5)).unwrap();
    let c = book.place_sell_order(bob(), &amt(9), &amt(5)).unwrap();
    assert_eq!((a, b, c), (1, 2, 3));
}
