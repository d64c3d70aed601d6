use vstd::prelude::*;
use vstd::pervasive::VecAdditionalExecFns;
use crate::account::AccountId;
use crate::amount::{amount_limit, Amount, SCALE};
use crate::ledger::BalanceLedger;

verus! {

/// Errors of the limit order book.
#[derive(Clone, Copy, PartialEq, Eq, Structural, Debug)]
pub enum OrderBookError {
    NotAuthorized,
    OrderNotFound,
    InsufficientFunds,
    InvalidAmount,
    InvalidPrice,
    TransferFailed,
    OrderAlreadyFilled,
    MathOverflow,
    MissingKey,
}

/// Which side of the book an order stands on.
#[derive(Clone, Copy, PartialEq, Eq, Structural, Debug)]
pub enum OrderSide {
    Buy,
    Sell,
}

/// The lifecycle state of an order. Transitions are monotone: a `Cancelled`
/// or fully `Filled` order never comes back.
#[derive(Clone, Copy, PartialEq, Eq, Structural, Debug)]
pub enum OrderStatus {
    Open,
    Filled,
    Cancelled,
    Partial,
}

/// One limit order. See `OrderBookState::wf` for the invariants every
/// stored order keeps.
#[derive(Clone, Copy, PartialEq, Eq, Structural, Debug)]
pub struct Order {
    pub owner: AccountId,
    pub side: OrderSide,
    pub price: Amount,
    pub amount: Amount,
    pub filled: Amount,
    pub status: OrderStatus,
}

/// The order book: sequentially numbered orders (id `i + 1` at index `i`),
/// running best-bid/best-ask marks, and the internal token ledger that backs
/// sell orders. The marks are advisory: they are raised or lowered only when
/// an order is placed, never recomputed when one is cancelled.
pub struct OrderBookState {
    pub admin: AccountId,
    pub orders: Vec<Order>,
    pub best_bid: Amount,
    pub best_ask: Amount,
    pub token_balances: BalanceLedger,
}

impl OrderBookState {
    /// Every stored order is well formed: no order is filled past its
    /// amount, an `Open` order has no fill at all (no operation of this
    /// component fills orders), and the escrowed value of a buy order fits
    /// the 512-bit domain, having been computed when the order was placed.
    pub open spec fn wf(self) -> bool {
        forall|i: int|
            0 <= i < self.orders@.len() ==> ((#[trigger] self.orders@[i]).filled@
                <= self.orders@[i].amount@ && (self.orders@[i].status == OrderStatus::Open
                ==> self.orders@[i].filled@ == 0) && (self.orders@[i].side == OrderSide::Buy
                ==> self.orders@[i].price@ * self.orders@[i].amount@ < amount_limit()))
    }

    /// An empty book: no orders, no balances, the bid mark at zero and the
    /// ask mark at the top of the domain.
    pub fn new(admin: AccountId) -> (r: OrderBookState)
        ensures
            r.wf(),
            r.admin == admin,
            r.orders@.len() == 0,
            r.best_bid@ == 0,
            r.best_ask@ == amount_limit() - 1,
            forall|a: AccountId| #[trigger] r.token_balances.spec_balance(a) == 0,
    {
        OrderBookState {
            admin,
            orders: Vec::new(),
            best_bid: Amount::from_u64(0),
            best_ask: Amount::max_value(),
            token_balances: BalanceLedger::new(),
        }
    }

    /// Place a buy limit order: escrow `price * amount / SCALE` motes, record
    /// the order as `Open`, raise the bid mark if the price beats it. `Ok`
    /// carries the new order id and the escrowed cost the caller must pay in.
    pub fn place_buy_order(&mut self, caller: AccountId, price: &Amount, amount: &Amount) -> (r:
        Result<(u64, Amount), OrderBookError>)
        requires
            old(self).wf(),
            old(self).orders@.len() < 0xFFFFFFFFFFFFFFFF,
        ensures
            final(self).wf(),
            r is Ok <==> (price@ != 0 && amount@ != 0 && price@ * amount@ < amount_limit()),
            r matches Ok((id, cost)) ==> id == old(self).orders@.len() + 1 && cost@ == price@
                * amount@ / (SCALE as nat),
            r is Ok ==> final(self).orders@.len() == old(self).orders@.len() + 1,
            r is Ok ==> (forall|i: int|
                0 <= i < old(self).orders@.len() ==> #[trigger] final(self).orders@[i] == old(
                    self,
                ).orders@[i]),
            r is Ok ==> ({
                let o = final(self).orders@[old(self).orders@.len() as int];
                o.owner == caller && o.side == OrderSide::Buy && o.price == *price && o.amount
                    == *amount && o.filled@ == 0 && o.status == OrderStatus::Open
            }),
            r is Ok ==> final(self).best_bid == (if price@ > old(self).best_bid@ {
                *price
            } else {
                old(self).best_bid
            }),
            r is Ok ==> final(self).best_ask == old(self).best_ask && final(self).token_balances
                == old(self).token_balances && final(self).admin == old(self).admin,
            r matches Err(e) ==> *final(self) == *old(self) && e == (if price@ == 0 {
                OrderBookError::InvalidPrice
            } else if amount@ == 0 {
                OrderBookError::InvalidAmount
            } else {
                OrderBookError::MathOverflow
            }),
    {
        if price.is_zero() {
            return Err(OrderBookError::InvalidPrice);
        }
        if amount.is_zero() {
            return Err(OrderBookError::InvalidAmount);
        }
        let total = match price.checked_mul(amount) {
            Some(v) => v,
            None => {
                return Err(OrderBookError::MathOverflow);
            },
        };
        let scale = Amount::from_u64(SCALE);
        let cost = match total.checked_div(&scale) {
            Some(v) => v,
            None => {
                return Err(OrderBookError::MathOverflow);
            },
        };
        let order = Order {
            owner: caller,
            side: OrderSide::Buy,
            price: *price,
            amount: *amount,
            filled: Amount::from_u64(0),
            status: OrderStatus::Open,
        };
        let id = self.orders.len() as u64 + 1;
        self.orders.push(order);
        if self.best_bid.lt(price) {
            self.best_bid = *price;
        }
        Ok((id, cost))
    }

    /// Place a sell limit order: move `amount` tokens from the caller's
    /// internal balance into the book's custody, record the order as `Open`,
    /// lower the ask mark if the price beats it. `Ok` carries the order id.
    pub fn place_sell_order(&mut self, caller: AccountId, price: &Amount, amount: &Amount) -> (r:
        Result<u64, OrderBookError>)
        requires
            old(self).wf(),
            old(self).orders@.len() < 0xFFFFFFFFFFFFFFFF,
        ensures
            final(self).wf(),
            r is Ok <==> (price@ != 0 && amount@ != 0 && old(self).token_balances.spec_balance(
                caller,
            ) >= amount@),
            r matches Ok(id) ==> id == old(self).orders@.len() + 1,
            r is Ok ==> final(self).orders@.len() == old(self).orders@.len() + 1,
            r is Ok ==> (forall|i: int|
                0 <= i < old(self).orders@.len() ==> #[trigger] final(self).orders@[i] == old(
                    self,
                ).orders@[i]),
            r is Ok ==> ({
                let o = final(self).orders@[old(self).orders@.len() as int];
                o.owner == caller && o.side == OrderSide::Sell && o.price == *price && o.amount
                    == *amount && o.filled@ == 0 && o.status == OrderStatus::Open
            }),
            r is Ok ==> final(self).best_ask == (if price@ < old(self).best_ask@ {
                *price
            } else {
                old(self).best_ask
            }),
            r is Ok ==> final(self).token_balances.spec_balance(caller) == old(
                self,
            ).token_balances.spec_balance(caller) - amount@,
            r is Ok ==> (forall|b: AccountId|
                b != caller ==> #[trigger] final(self).token_balances.spec_balance(b) == old(
                    self,
                ).token_balances.spec_balance(b)),
            r is Ok ==> final(self).best_bid == old(self).best_bid && final(self).admin == old(
                self,
            ).admin,
            r matches Err(e) ==> *final(self) == *old(self) && e == (if price@ == 0 {
                OrderBookError::InvalidPrice
            } else if amount@ == 0 {
                OrderBookError::InvalidAmount
            } else {
                OrderBookError::InsufficientFunds
            }),
    {
        if price.is_zero() {
            return Err(OrderBookError::InvalidPrice);
        }
        if amount.is_zero() {
            return Err(OrderBookError::InvalidAmount);
        }
        let balance = self.token_balances.balance_of(&caller);
        let new_balance = match balance.checked_sub(amount) {
            Some(v) => v,
            None => {
                return Err(OrderBookError::InsufficientFunds);
            },
        };
        self.token_balances.store_balance(&caller, new_balance);
        let order = Order {
            owner: caller,
            side: OrderSide::Sell,
            price: *price,
            amount: *amount,
            filled: Amount::from_u64(0),
            status: OrderStatus::Open,
        };
        let id = self.orders.len() as u64 + 1;
        self.orders.push(order);
        if price.lt(&self.best_ask) {
            self.best_ask = *price;
        }
        Ok(id)
    }

    /// Whether cancelling order `id` by `caller` succeeds.
    pub open spec fn spec_cancel_ok(pre: OrderBookState, caller: AccountId, id: u64) -> bool {
        &&& 1 <= id <= pre.orders@.len()
        &&& pre.orders@[id - 1].owner == caller
        &&& (pre.orders@[id - 1].status == OrderStatus::Open || pre.orders@[id - 1].status
            == OrderStatus::Partial)
        &&& (pre.orders@[id - 1].side == OrderSide::Sell ==> pre.token_balances.spec_balance(
            caller,
        ) + pre.orders@[id - 1].amount@ - pre.orders@[id - 1].filled@ < amount_limit())
    }

    /// The error of a rejected cancel, in the order the checks are made.
    pub open spec fn spec_cancel_err(pre: OrderBookState, caller: AccountId, id: u64) -> OrderBookError {
        if !(1 <= id <= pre.orders@.len()) {
            OrderBookError::OrderNotFound
        } else if pre.orders@[id - 1].owner != caller {
            OrderBookError::NotAuthorized
        } else if pre.orders@[id - 1].status != OrderStatus::Open && pre.orders@[id - 1].status
            != OrderStatus::Partial {
            OrderBookError::OrderAlreadyFilled
        } else {
            OrderBookError::MathOverflow
        }
    }

    /// Cancel an order. Owner only; only an `Open` or `Partial` order can be
    /// cancelled, and only its unfilled remainder comes back: for a buy order
    /// `Ok` carries the motes `price * unfilled / SCALE` to refund, for a
    /// sell order the unfilled tokens, credited back to the owner's internal
    /// balance. The bid and ask marks are left as they are, so they may go
    /// stale; they are advisory bounds only.
    pub fn cancel_order(&mut self, caller: AccountId, order_id: u64) -> (r: Result<
        Amount,
        OrderBookError,
    >)
        requires
            old(self).wf(),
        ensures
            final(self).wf(),
            r is Ok <==> Self::spec_cancel_ok(*old(self), caller, order_id),
            r is Ok ==> final(self).orders@ == old(self).orders@.update(
                order_id - 1,
                Order { status: OrderStatus::Cancelled, ..old(self).orders@[order_id - 1] },
            ),
            r matches Ok(refund) ==> ({
                let o = old(self).orders@[order_id - 1];
                if o.side == OrderSide::Buy {
                    refund@ == (o.price@ as int) * (o.amount@ - o.filled@) / (SCALE as int)
                } else {
                    refund@ == o.amount@ - o.filled@
                }
            }),
            r is Ok ==> ({
                let o = old(self).orders@[order_id - 1];
                if o.side == OrderSide::Buy {
                    final(self).token_balances == old(self).token_balances
                } else {
                    final(self).token_balances.spec_balance(caller) == old(
                        self,
                    ).token_balances.spec_balance(caller) + (o.amount@ - o.filled@) && (forall|
                        b: AccountId,
                    |
                        b != caller ==> #[trigger] final(self).token_balances.spec_balance(b)
                            == old(self).token_balances.spec_balance(b))
                }
            }),
            final(self).best_bid == old(self).best_bid && final(self).best_ask == old(
                self,
            ).best_ask && final(self).admin == old(self).admin,
            r matches Err(e) ==> *final(self) == *old(self) && e == Self::spec_cancel_err(
                *old(self),
                caller,
                order_id,
            ),
    {
        if order_id == 0 || order_id > self.orders.len() as u64 {
            return Err(OrderBookError::OrderNotFound);
        }
        let index = (order_id - 1) as usize;
        let order = self.orders[index];
        if !(order.owner == caller) {
            return Err(OrderBookError::NotAuthorized);
        }
        if order.status != OrderStatus::Open && order.status != OrderStatus::Partial {
            return Err(OrderBookError::OrderAlreadyFilled);
        }
        let unfilled = match order.amount.checked_sub(&order.filled) {
            Some(v) => v,
            None => {
                return Err(OrderBookError::OrderNotFound);
            },
        };
        let refund: Amount;
        if order.side == OrderSide::Buy {
            proof {
                vstd::arithmetic::mul::lemma_mul_inequality(
                    order.amount@ - order.filled@,
                    order.amount@ as int,
                    order.price@ as int,
                );
            }
            let total = match order.price.checked_mul(&unfilled) {
                Some(v) => v,
                None => {
                    return Err(OrderBookError::MathOverflow);
                },
            };
            let scale = Amount::from_u64(SCALE);
            refund = match total.checked_div(&scale) {
                Some(v) => v,
                None => {
                    return Err(OrderBookError::MathOverflow);
                },
            };
        } else {
            let balance = self.token_balances.balance_of(&caller);
            let new_balance = match balance.checked_add(&unfilled) {
                Some(v) => v,
                None => {
                    return Err(OrderBookError::MathOverflow);
                },
            };
            self.token_balances.store_balance(&caller, new_balance);
            refund = unfilled;
        }
        let cancelled = Order { status: OrderStatus::Cancelled, ..order };
        self.orders.set(index, cancelled);
        Ok(refund)
    }

    /// The order stored under `order_id`.
    pub fn get_order(&self, order_id: u64) -> (r: Result<Order, OrderBookError>)
        ensures
            r is Ok <==> 1 <= order_id <= self.orders@.len(),
            r matches Ok(o) ==> o == self.orders@[order_id - 1],
            r matches Err(e) ==> e == OrderBookError::OrderNotFound,
    {
        if order_id == 0 || order_id > self.orders.len() as u64 {
            return Err(OrderBookError::OrderNotFound);
        }
        Ok(self.orders[(order_id - 1) as usize])
    }

    /// The running best bid price: the highest price any buy order ever
    /// brought, zero before the first one. Advisory only once orders are
    /// cancelled.
    pub fn get_best_bid_ep(&self) -> (r: Amount)
        ensures
            r == self.best_bid,
    {
        self.best_bid
    }

    /// The running best ask price: the lowest price any sell order ever
    /// brought, the top of the domain before the first one. Advisory only
    /// once orders are cancelled.
    pub fn get_best_ask_ep(&self) -> (r: Amount)
        ensures
            r == self.best_ask,
    {
        self.best_ask
    }

    /// Credit tokens to the caller's internal balance, to back future sell
    /// orders. This ledger is internal bookkeeping only.
    pub fn deposit_tokens(&mut self, caller: AccountId, amount: &Amount) -> (r: Result<
        (),
        OrderBookError,
    >)
        requires
            old(self).wf(),
        ensures
            final(self).wf(),
            r is Ok <==> (amount@ != 0 && old(self).token_balances.spec_balance(caller) + amount@
                < amount_limit()),
            r is Ok ==> final(self).token_balances.spec_balance(caller) == old(
                self,
            ).token_balances.spec_balance(caller) + amount@,
            r is Ok ==> (forall|b: AccountId|
                b != caller ==> #[trigger] final(self).token_balances.spec_balance(b) == old(
                    self,
                ).token_balances.spec_balance(b)),
            final(self).orders@ == old(self).orders@ && final(self).best_bid == old(self).best_bid
                && final(self).best_ask == old(self).best_ask && final(self).admin == old(
                self,
            ).admin,
            r matches Err(e) ==> *final(self) == *old(self) && e == (if amount@ == 0 {
                OrderBookError::InvalidAmount
            } else {
                OrderBookError::MathOverflow
            }),
    {
        if amount.is_zero() {
            return Err(OrderBookError::InvalidAmount);
        }
        let balance = self.token_balances.balance_of(&caller);
        let new_balance = match balance.checked_add(amount) {
            Some(v) => v,
            None => {
                return Err(OrderBookError::MathOverflow);
            },
        };
        self.token_balances.store_balance(&caller, new_balance);
        Ok(())
    }

    /// Debit tokens from the caller's internal balance.
    pub fn withdraw_tokens(&mut self, caller: AccountId, amount: &Amount) -> (r: Result<
        (),
        OrderBookError,
    >)
        requires
            old(self).wf(),
        ensures
            final(self).wf(),
            r is Ok <==> (amount@ != 0 && old(self).token_balances.spec_balance(caller) >= amount@),
            r is Ok ==> final(self).token_balances.spec_balance(caller) == old(
                self,
            ).token_balances.spec_balance(caller) - amount@,
            r is Ok ==> (forall|b: AccountId|
                b != caller ==> #[trigger] final(self).token_balances.spec_balance(b) == old(
                    self,
                ).token_balances.spec_balance(b)),
            final(self).orders@ == old(self).orders@ && final(self).best_bid == old(self).best_bid
                && final(self).best_ask == old(self).best_ask && final(self).admin == old(
                self,
            ).admin,
            r matches Err(e) ==> *final(self) == *old(self) && e == (if amount@ == 0 {
                OrderBookError::InvalidAmount
            } else {
                OrderBookError::InsufficientFunds
            }),
    {
        if amount.is_zero() {
            return Err(OrderBookError::InvalidAmount);
        }
        let balance = self.token_balances.balance_of(&caller);
        let new_balance = match balance.checked_sub(amount) {
            Some(v) => v,
            None => {
                return Err(OrderBookError::InsufficientFunds);
            },
        };
        self.token_balances.store_balance(&caller, new_balance);
        Ok(())
    }
}

} // verus!
