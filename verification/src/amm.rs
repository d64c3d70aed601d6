use vstd::prelude::*;
use crate::account::AccountId;
use crate::amount::{amount_limit, Amount, SCALE};
use crate::ledger::BalanceLedger;

verus! {

/// Errors of the bonding-curve market maker.
#[derive(Clone, Copy, PartialEq, Eq, Structural, Debug)]
pub enum AmmError {
    NotAuthorized,
    AlreadyInitialized,
    NotInitialized,
    InsufficientPayment,
    InsufficientTokens,
    InsufficientReserve,
    InvalidAmount,
    TransferFailed,
    MathOverflow,
    MissingKey,
    SlippageExceeded,
}

/// The divisor that turns basis points into a fraction.
pub open spec fn bps_denominator() -> int {
    10000
}

/// The divisor applied once to the quadratic cost term: twice the basis-point
/// scale times the fixed-point scale, so that precision is lost to truncation
/// only once.
pub open spec fn cost_denominator() -> int {
    20000 * (SCALE as int)
}

/// The spot price at a given supply:
/// `initial_price + (initial_price * reserve_ratio / 10000) * supply / SCALE`,
/// each division flooring.
pub open spec fn spec_price_at(ip: int, rr: int, supply: int) -> int {
    ip + ((ip * rr / bps_denominator()) * supply) / (SCALE as int)
}

/// The motes exchanged for the tokens between supply `lo` and supply `hi`:
/// the price integrated over that interval,
/// `initial_price * (hi - lo) + initial_price * reserve_ratio * (hi^2 - lo^2) / (20000 * SCALE)`.
pub open spec fn spec_trade_value(ip: int, rr: int, lo: int, hi: int) -> int {
    ip * (hi - lo) + (ip * rr * (hi * hi - lo * lo)) / cost_denominator()
}

/// The cost of buying `amt` tokens at supply `supply`.
pub open spec fn spec_buy_cost(ip: int, rr: int, supply: int, amt: int) -> int {
    spec_trade_value(ip, rr, supply, supply + amt)
}

/// The proceeds of selling `amt` tokens at supply `supply`.
pub open spec fn spec_sell_proceeds(ip: int, rr: int, supply: int, amt: int) -> int {
    spec_trade_value(ip, rr, supply - amt, supply)
}

/// Whether every intermediate product of the trade-value computation fits in
/// the 512-bit domain.
pub open spec fn trade_fits(ip: int, rr: int, lo: int, hi: int) -> bool {
    &&& ip * rr < amount_limit()
    &&& ip * (hi - lo) < amount_limit()
    &&& hi * hi < amount_limit()
    &&& ip * rr * (hi * hi - lo * lo) < amount_limit()
    &&& ip * (hi - lo) + (ip * rr * (hi * hi - lo * lo)) / cost_denominator() < amount_limit()
}

/// Whether every intermediate product of the spot-price computation fits in
/// the 512-bit domain.
pub open spec fn price_fits(ip: int, rr: int, supply: int) -> bool {
    &&& ip * rr < amount_limit()
    &&& (ip * rr / bps_denominator()) * supply < amount_limit()
    &&& spec_price_at(ip, rr, supply) < amount_limit()
}

/// The integral of the price between supplies `lo` and `hi`, or `None` when
/// an intermediate product leaves the 512-bit domain.
fn compute_trade_value(ip: &Amount, rr: &Amount, lo: &Amount, hi: &Amount) -> (r: Option<Amount>)
    requires
        lo@ <= hi@,
    ensures
        r is Some <==> trade_fits(ip@ as int, rr@ as int, lo@ as int, hi@ as int),
        r matches Some(v) ==> v@ == spec_trade_value(ip@ as int, rr@ as int, lo@ as int, hi@ as int),
{
    let slope_numerator = match ip.checked_mul(rr) {
        Some(v) => v,
        None => {
            return None;
        },
    };
    let delta = match hi.checked_sub(lo) {
        Some(v) => v,
        None => {
            return None;
        },
    };
    let linear = match ip.checked_mul(&delta) {
        Some(v) => v,
        None => {
            return None;
        },
    };
    let hi_squared = match hi.checked_mul(hi) {
        Some(v) => v,
        None => {
            return None;
        },
    };
    proof {
        vstd::arithmetic::mul::lemma_mul_inequality(lo@ as int, hi@ as int, lo@ as int);
        vstd::arithmetic::mul::lemma_mul_inequality(lo@ as int, hi@ as int, hi@ as int);
    }
    let lo_squared = match lo.checked_mul(lo) {
        Some(v) => v,
        None => {
            return None;
        },
    };
    let diff_squared = match hi_squared.checked_sub(&lo_squared) {
        Some(v) => v,
        None => {
            return None;
        },
    };
    let quadratic_numerator = match slope_numerator.checked_mul(&diff_squared) {
        Some(v) => v,
        None => {
            return None;
        },
    };
    let denominator = Amount::from_u64(20_000_000_000_000);
    let quadratic = match quadratic_numerator.checked_div(&denominator) {
        Some(v) => v,
        None => {
            return None;
        },
    };
    linear.checked_add(&quadratic)
}

/// One completed trade against the curve: the tokens that moved and the
/// motes that moved with them.
pub enum Trade {
    Bought { tokens: nat, paid: nat },
    Sold { tokens: nat, got: nat },
}

/// How one trade moves the pair (reserve, supply).
pub open spec fn trade_step(rs: (int, int), t: Trade) -> (int, int) {
    match t {
        Trade::Bought { tokens, paid } => (rs.0 + paid, rs.1 + tokens),
        Trade::Sold { tokens, got } => (rs.0 - got, rs.1 - tokens),
    }
}

/// The pair (reserve, supply) after a sequence of trades.
pub open spec fn apply_trades(rs: (int, int), ts: Seq<Trade>) -> (int, int)
    decreases ts.len(),
{
    if ts.len() == 0 {
        rs
    } else {
        trade_step(apply_trades(rs, ts.drop_last()), ts.last())
    }
}

/// The motes paid in over a sequence of trades minus the motes paid out.
pub open spec fn net_trade_value(ts: Seq<Trade>) -> int
    decreases ts.len(),
{
    if ts.len() == 0 {
        0
    } else {
        net_trade_value(ts.drop_last()) + match ts.last() {
            Trade::Bought { paid, .. } => paid as int,
            Trade::Sold { got, .. } => -(got as int),
        }
    }
}

/// The tokens credited over a sequence of trades minus the tokens debited.
pub open spec fn net_trade_tokens(ts: Seq<Trade>) -> int
    decreases ts.len(),
{
    if ts.len() == 0 {
        0
    } else {
        net_trade_tokens(ts.drop_last()) + match ts.last() {
            Trade::Bought { tokens, .. } => tokens as int,
            Trade::Sold { tokens, .. } => -(tokens as int),
        }
    }
}

/// Conservation of value: over any sequence of buys and sells, the reserve
/// changes by exactly the sum of the costs paid in minus the sum of the
/// proceeds paid out, and the supply changes by exactly the tokens credited
/// minus the tokens debited. Each successful `buy` and `sell` makes one
/// `trade_step` of the pair (reserve, supply), as their contracts state.
pub proof fn lemma_trade_conservation(rs: (int, int), ts: Seq<Trade>)
    ensures
        apply_trades(rs, ts).0 - rs.0 == net_trade_value(ts),
        apply_trades(rs, ts).1 - rs.1 == net_trade_tokens(ts),
    decreases ts.len(),
{
    if ts.len() > 0 {
        lemma_trade_conservation(rs, ts.drop_last());
    }
}

/// Monotonic price: a larger supply never gives a smaller spot price.
pub proof fn lemma_price_monotonic(ip: int, rr: int, s1: int, s2: int)
    requires
        0 <= ip,
        0 <= rr,
        0 <= s1 <= s2,
    ensures
        spec_price_at(ip, rr, s1) <= spec_price_at(ip, rr, s2),
{
    let slope = ip * rr / bps_denominator();
    vstd::arithmetic::mul::lemma_mul_nonnegative(ip, rr);
    vstd::arithmetic::div_mod::lemma_div_pos_is_pos(ip * rr, bps_denominator());
    vstd::arithmetic::mul::lemma_mul_inequality(s1, s2, slope);
    vstd::arithmetic::div_mod::lemma_div_is_ordered(slope * s1, slope * s2, SCALE as int);
}

/// Round trip: buying some tokens and immediately selling them back at the
/// then-current supply returns exactly what was paid, so never more.
pub proof fn lemma_round_trip(ip: int, rr: int, supply: int, amt: int)
    ensures
        spec_sell_proceeds(ip, rr, supply + amt, amt) == spec_buy_cost(ip, rr, supply, amt),
        spec_sell_proceeds(ip, rr, supply + amt, amt) <= spec_buy_cost(ip, rr, supply, amt),
{
}

/// The state of the bonding-curve market maker: the curve parameters, the
/// circulating token supply, the per-account token balances and the motes
/// held in its reserve.
#[derive(Clone)]
pub struct CurveState {
    pub admin: AccountId,
    pub initial_price: Amount,
    pub reserve_ratio: Amount,
    pub total_supply: Amount,
    pub initialized: bool,
    pub reserve: Amount,
    pub balances: BalanceLedger,
}

/// The error of a rejected `initialize`, in the order the checks are made.
pub open spec fn spec_initialize_err(pre: CurveState, caller: AccountId, ip: nat) -> AmmError {
    if caller != pre.admin {
        AmmError::NotAuthorized
    } else if pre.initialized {
        AmmError::AlreadyInitialized
    } else {
        AmmError::InvalidAmount
    }
}

impl CurveState {
    /// A market maker that has not been initialized: no supply, no reserve,
    /// no balances.
    pub fn new(admin: AccountId) -> (r: CurveState)
        ensures
            r.admin == admin,
            !r.initialized,
            r.initial_price@ == 0,
            r.reserve_ratio@ == 0,
            r.total_supply@ == 0,
            r.reserve@ == 0,
            forall|a: AccountId| #[trigger] r.balances.spec_balance(a) == 0,
    {
        CurveState {
            admin,
            initial_price: Amount::from_u64(0),
            reserve_ratio: Amount::from_u64(0),
            total_supply: Amount::from_u64(0),
            initialized: false,
            reserve: Amount::from_u64(0),
            balances: BalanceLedger::new(),
        }
    }

    /// Set the curve parameters once. Only the admin may call, only before
    /// any initialization, and the initial price must be positive.
    pub fn initialize(
        &mut self,
        caller: AccountId,
        initial_price: Amount,
        reserve_ratio: Amount,
    ) -> (r: Result<(), AmmError>)
        ensures
            r is Ok <==> (caller == old(self).admin && !old(self).initialized && initial_price@
                != 0),
            r is Ok ==> *final(self) == (CurveState {
                initial_price,
                reserve_ratio,
                initialized: true,
                ..*old(self)
            }),
            r matches Err(e) ==> *final(self) == *old(self) && e == spec_initialize_err(
                *old(self),
                caller,
                initial_price@,
            ),
    {
        if !(caller == self.admin) {
            return Err(AmmError::NotAuthorized);
        }
        if self.initialized {
            return Err(AmmError::AlreadyInitialized);
        }
        if initial_price.is_zero() {
            return Err(AmmError::InvalidAmount);
        }
        self.initial_price = initial_price;
        self.reserve_ratio = reserve_ratio;
        self.initialized = true;
        Ok(())
    }

    /// Whether a buy of `amt` tokens against `max_cost` motes succeeds.
    pub open spec fn spec_buy_ok(pre: CurveState, caller: AccountId, amt: nat, max_cost: nat) -> bool {
        let ip = pre.initial_price@ as int;
        let rr = pre.reserve_ratio@ as int;
        let s = pre.total_supply@ as int;
        &&& pre.initialized
        &&& amt != 0
        &&& s + amt < amount_limit()
        &&& trade_fits(ip, rr, s, s + amt)
        &&& spec_buy_cost(ip, rr, s, amt as int) <= max_cost
        &&& pre.reserve@ + spec_buy_cost(ip, rr, s, amt as int) < amount_limit()
        &&& pre.balances.spec_balance(caller) + amt < amount_limit()
    }

    /// The error of a rejected buy, in the order the checks are made.
    pub open spec fn spec_buy_err(pre: CurveState, caller: AccountId, amt: nat, max_cost: nat) -> AmmError {
        let ip = pre.initial_price@ as int;
        let rr = pre.reserve_ratio@ as int;
        let s = pre.total_supply@ as int;
        if !pre.initialized {
            AmmError::NotInitialized
        } else if amt == 0 {
            AmmError::InvalidAmount
        } else if !(s + amt < amount_limit() && trade_fits(ip, rr, s, s + amt)) {
            AmmError::MathOverflow
        } else if spec_buy_cost(ip, rr, s, amt as int) > max_cost {
            AmmError::SlippageExceeded
        } else {
            AmmError::MathOverflow
        }
    }

    /// Buy `token_amount` tokens: compute the cost by integrating the price
    /// over the supply interval, reject it above `max_cost`, move the cost
    /// into the reserve, mint the tokens to the caller. A rejected call
    /// leaves the state untouched. `Ok` carries the cost the caller pays.
    pub fn buy(&mut self, caller: AccountId, token_amount: &Amount, max_cost: &Amount) -> (r:
        Result<Amount, AmmError>)
        ensures
            r is Ok <==> Self::spec_buy_ok(*old(self), caller, token_amount@, max_cost@),
            r matches Ok(cost) ==> cost@ == spec_buy_cost(
                old(self).initial_price@ as int,
                old(self).reserve_ratio@ as int,
                old(self).total_supply@ as int,
                token_amount@ as int,
            ),
            r is Ok ==> final(self).total_supply@ == old(self).total_supply@ + token_amount@,
            r matches Ok(cost) ==> final(self).reserve@ == old(self).reserve@ + cost@,
            r is Ok ==> final(self).balances.spec_balance(caller) == old(self).balances.spec_balance(caller) + token_amount@,
            r is Ok ==> forall|b: AccountId|
                b != caller ==> #[trigger] final(self).balances.spec_balance(b) == old(self).balances.spec_balance(b),
            final(self).admin == old(self).admin && final(self).initial_price == old(self).initial_price && final(self).reserve_ratio == old(self).reserve_ratio && final(self).initialized == old(self).initialized,
            r matches Ok(cost) ==> (final(self).reserve@ as int, final(self).total_supply@ as int)
                == trade_step(
                (old(self).reserve@ as int, old(self).total_supply@ as int),
                Trade::Bought { tokens: token_amount@, paid: cost@ },
            ),
            r matches Err(e) ==> *final(self) == *old(self) && e == Self::spec_buy_err(
                *old(self),
                caller,
                token_amount@,
                max_cost@,
            ),
    {
        if !self.initialized {
            return Err(AmmError::NotInitialized);
        }
        if token_amount.is_zero() {
            return Err(AmmError::InvalidAmount);
        }
        let new_supply = match self.total_supply.checked_add(token_amount) {
            Some(v) => v,
            None => {
                return Err(AmmError::MathOverflow);
            },
        };
        let cost = match compute_trade_value(
            &self.initial_price,
            &self.reserve_ratio,
            &self.total_supply,
            &new_supply,
        ) {
            Some(v) => v,
            None => {
                return Err(AmmError::MathOverflow);
            },
        };
        if max_cost.lt(&cost) {
            return Err(AmmError::SlippageExceeded);
        }
        let new_reserve = match self.reserve.checked_add(&cost) {
            Some(v) => v,
            None => {
                return Err(AmmError::MathOverflow);
            },
        };
        let balance = self.balances.balance_of(&caller);
        let new_balance = match balance.checked_add(token_amount) {
            Some(v) => v,
            None => {
                return Err(AmmError::MathOverflow);
            },
        };
        self.reserve = new_reserve;
        self.total_supply = new_supply;
        self.balances.store_balance(&caller, new_balance);
        Ok(cost)
    }

    /// Whether a sell of `amt` tokens against `min_proceeds` motes succeeds.
    pub open spec fn spec_sell_ok(pre: CurveState, caller: AccountId, amt: nat, min_proceeds: nat) -> bool {
        let ip = pre.initial_price@ as int;
        let rr = pre.reserve_ratio@ as int;
        let s = pre.total_supply@ as int;
        &&& pre.initialized
        &&& amt != 0
        &&& pre.balances.spec_balance(caller) >= amt
        &&& pre.total_supply@ >= amt
        &&& trade_fits(ip, rr, s - amt, s)
        &&& spec_sell_proceeds(ip, rr, s, amt as int) >= min_proceeds
        &&& pre.reserve@ >= spec_sell_proceeds(ip, rr, s, amt as int)
    }

    /// The error of a rejected sell, in the order the checks are made.
    pub open spec fn spec_sell_err(pre: CurveState, caller: AccountId, amt: nat, min_proceeds: nat) -> AmmError {
        let ip = pre.initial_price@ as int;
        let rr = pre.reserve_ratio@ as int;
        let s = pre.total_supply@ as int;
        if !pre.initialized {
            AmmError::NotInitialized
        } else if amt == 0 {
            AmmError::InvalidAmount
        } else if pre.balances.spec_balance(caller) < amt || pre.total_supply@ < amt {
            AmmError::InsufficientTokens
        } else if !trade_fits(ip, rr, s - amt, s) {
            AmmError::MathOverflow
        } else if spec_sell_proceeds(ip, rr, s, amt as int) < min_proceeds {
            AmmError::SlippageExceeded
        } else {
            AmmError::InsufficientReserve
        }
    }

    /// Sell `token_amount` tokens: compute the proceeds by integrating the
    /// price over the supply interval, reject them below `min_proceeds` or
    /// above the reserve, burn the tokens from the caller, move the proceeds
    /// out of the reserve. A rejected call leaves the state untouched. `Ok`
    /// carries the proceeds owed to the caller.
    pub fn sell(&mut self, caller: AccountId, token_amount: &Amount, min_proceeds: &Amount) -> (r:
        Result<Amount, AmmError>)
        ensures
            r is Ok <==> Self::spec_sell_ok(*old(self), caller, token_amount@, min_proceeds@),
            r matches Ok(proceeds) ==> proceeds@ == spec_sell_proceeds(
                old(self).initial_price@ as int,
                old(self).reserve_ratio@ as int,
                old(self).total_supply@ as int,
                token_amount@ as int,
            ),
            r is Ok ==> final(self).total_supply@ == old(self).total_supply@ - token_amount@,
            r matches Ok(proceeds) ==> final(self).reserve@ == old(self).reserve@ - proceeds@,
            r is Ok ==> final(self).balances.spec_balance(caller) == old(self).balances.spec_balance(caller) - token_amount@,
            r is Ok ==> forall|b: AccountId|
                b != caller ==> #[trigger] final(self).balances.spec_balance(b) == old(self).balances.spec_balance(b),
            final(self).admin == old(self).admin && final(self).initial_price == old(self).initial_price && final(self).reserve_ratio == old(self).reserve_ratio && final(self).initialized == old(self).initialized,
            r matches Ok(proceeds) ==> (
                final(self).reserve@ as int,
                final(self).total_supply@ as int,
            ) == trade_step(
                (old(self).reserve@ as int, old(self).total_supply@ as int),
                Trade::Sold { tokens: token_amount@, got: proceeds@ },
            ),
            r matches Err(e) ==> *final(self) == *old(self) && e == Self::spec_sell_err(
                *old(self),
                caller,
                token_amount@,
                min_proceeds@,
            ),
    {
        if !self.initialized {
            return Err(AmmError::NotInitialized);
        }
        if token_amount.is_zero() {
            return Err(AmmError::InvalidAmount);
        }
        let balance = self.balances.balance_of(&caller);
        if balance.lt(token_amount) {
            return Err(AmmError::InsufficientTokens);
        }
        let prior_supply = match self.total_supply.checked_sub(token_amount) {
            Some(v) => v,
            None => {
                return Err(AmmError::InsufficientTokens);
            },
        };
        let proceeds = match compute_trade_value(
            &self.initial_price,
            &self.reserve_ratio,
            &prior_supply,
            &self.total_supply,
        ) {
            Some(v) => v,
            None => {
                return Err(AmmError::MathOverflow);
            },
        };
        if proceeds.lt(min_proceeds) {
            return Err(AmmError::SlippageExceeded);
        }
        let new_reserve = match self.reserve.checked_sub(&proceeds) {
            Some(v) => v,
            None => {
                return Err(AmmError::InsufficientReserve);
            },
        };
        let new_balance = match balance.checked_sub(token_amount) {
            Some(v) => v,
            None => {
                return Err(AmmError::InsufficientTokens);
            },
        };
        self.balances.store_balance(&caller, new_balance);
        self.total_supply = prior_supply;
        self.reserve = new_reserve;
        Ok(proceeds)
    }

    /// Add motes to the reserve. Admin only; the amount must be positive.
    pub fn deposit_reserve(&mut self, caller: AccountId, amount: &Amount) -> (r: Result<
        (),
        AmmError,
    >)
        ensures
            r is Ok <==> (caller == old(self).admin && amount@ != 0 && old(self).reserve@ + amount@
                < amount_limit()),
            r is Ok ==> final(self).reserve@ == old(self).reserve@ + amount@,
            r is Ok ==> final(self).admin == old(self).admin && final(self).initial_price == old(self).initial_price && final(self).reserve_ratio == old(self).reserve_ratio && final(self).initialized == old(self).initialized && final(self).total_supply == old(self).total_supply && final(self).balances == old(self).balances,
            r matches Err(e) ==> *final(self) == *old(self) && e == (if caller != old(self).admin {
                AmmError::NotAuthorized
            } else if amount@ == 0 {
                AmmError::InvalidAmount
            } else {
                AmmError::MathOverflow
            }),
    {
        if !(caller == self.admin) {
            return Err(AmmError::NotAuthorized);
        }
        if amount.is_zero() {
            return Err(AmmError::InvalidAmount);
        }
        let new_reserve = match self.reserve.checked_add(amount) {
            Some(v) => v,
            None => {
                return Err(AmmError::MathOverflow);
            },
        };
        self.reserve = new_reserve;
        Ok(())
    }

    /// Draw motes out of the reserve, to be paid to `recipient`. Admin only;
    /// the reserve must cover the amount.
    pub fn admin_withdraw(&mut self, caller: AccountId, recipient: AccountId, amount: &Amount) -> (r: Result<(), AmmError>)
        ensures
            r is Ok <==> (caller == old(self).admin && amount@ <= old(self).reserve@),
            r is Ok ==> final(self).reserve@ == old(self).reserve@ - amount@,
            r is Ok ==> final(self).admin == old(self).admin && final(self).initial_price == old(self).initial_price && final(self).reserve_ratio == old(self).reserve_ratio && final(self).initialized == old(self).initialized && final(self).total_supply == old(self).total_supply && final(self).balances == old(self).balances,
            r matches Err(e) ==> *final(self) == *old(self) && e == (if caller != old(self).admin {
                AmmError::NotAuthorized
            } else {
                AmmError::InsufficientReserve
            }),
    {
        let _ = recipient;
        if !(caller == self.admin) {
            return Err(AmmError::NotAuthorized);
        }
        let new_reserve = match self.reserve.checked_sub(amount) {
            Some(v) => v,
            None => {
                return Err(AmmError::InsufficientReserve);
            },
        };
        self.reserve = new_reserve;
        Ok(())
    }

    /// The spot price at the given supply, `MathOverflow` when an
    /// intermediate product leaves the 512-bit domain.
    pub fn price_at(&self, supply: &Amount) -> (r: Result<Amount, AmmError>)
        ensures
            r is Ok <==> price_fits(self.initial_price@ as int, self.reserve_ratio@ as int, supply@ as int),
            r matches Ok(p) ==> p@ == spec_price_at(
                self.initial_price@ as int,
                self.reserve_ratio@ as int,
                supply@ as int,
            ),
            r matches Err(e) ==> e == AmmError::MathOverflow,
    {
        let slope_numerator = match self.initial_price.checked_mul(&self.reserve_ratio) {
            Some(v) => v,
            None => {
                return Err(AmmError::MathOverflow);
            },
        };
        let bps = Amount::from_u64(10000);
        let slope_per_token = match slope_numerator.checked_div(&bps) {
            Some(v) => v,
            None => {
                return Err(AmmError::MathOverflow);
            },
        };
        let increase_numerator = match slope_per_token.checked_mul(supply) {
            Some(v) => v,
            None => {
                return Err(AmmError::MathOverflow);
            },
        };
        let scale = Amount::from_u64(SCALE);
        let increase = match increase_numerator.checked_div(&scale) {
            Some(v) => v,
            None => {
                return Err(AmmError::MathOverflow);
            },
        };
        match self.initial_price.checked_add(&increase) {
            Some(v) => Ok(v),
            None => Err(AmmError::MathOverflow),
        }
    }

    /// The spot price at the current supply.
    pub fn get_price(&self) -> (r: Result<Amount, AmmError>)
        ensures
            r is Ok <==> price_fits(
                self.initial_price@ as int,
                self.reserve_ratio@ as int,
                self.total_supply@ as int,
            ),
            r matches Ok(p) ==> p@ == spec_price_at(
                self.initial_price@ as int,
                self.reserve_ratio@ as int,
                self.total_supply@ as int,
            ),
            r matches Err(e) ==> e == AmmError::MathOverflow,
    {
        let supply = self.total_supply;
        self.price_at(&supply)
    }

    /// The token balance of an account.
    pub fn get_balance(&self, account: &AccountId) -> (r: Amount)
        ensures
            r@ == self.balances.spec_balance(*account),
    {
        self.balances.balance_of(account)
    }

    /// The motes held in the reserve.
    pub fn get_reserve(&self) -> (r: Amount)
        ensures
            r@ == self.reserve@,
    {
        self.reserve
    }

    /// The circulating token supply.
    pub fn get_supply(&self) -> (r: Amount)
        ensures
            r@ == self.total_supply@,
    {
        self.total_supply
    }
}

} // verus!
