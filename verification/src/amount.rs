use vstd::prelude::*;

verus! {

/// The number of motes in one whole unit of native value (the fixed-point
/// scale of all prices).
pub const SCALE: u64 = 1_000_000_000;

/// First value that does not fit in 512 bits: 2^512.
pub open spec fn amount_limit() -> nat {
    0x100000000000000000000000000000000000000000000000000000000000000000000000000000000000000000000000000000000000000000000000000000000nat
}

/// An unsigned 512-bit quantity of motes or tokens, stored as eight 64-bit
/// limbs, least significant first. Its mathematical value is the view `@`.
#[derive(Clone, Copy, PartialEq, Eq, Structural, Debug)]
pub struct Amount {
    pub l0: u64,
    pub l1: u64,
    pub l2: u64,
    pub l3: u64,
    pub l4: u64,
    pub l5: u64,
    pub l6: u64,
    pub l7: u64,
}

impl View for Amount {
    type V = nat;

    open spec fn view(&self) -> nat {
        (self.l0 + self.l1 * 0x10000000000000000
            + self.l2 * 0x100000000000000000000000000000000
            + self.l3 * 0x1000000000000000000000000000000000000000000000000
            + self.l4 * 0x10000000000000000000000000000000000000000000000000000000000000000
            + self.l5 * 0x100000000000000000000000000000000000000000000000000000000000000000000000000000000
            + self.l6 * 0x1000000000000000000000000000000000000000000000000000000000000000000000000000000000000000000000000
            + self.l7 * 0x10000000000000000000000000000000000000000000000000000000000000000000000000000000000000000000000000000000000000000) as nat
    }
}

impl Amount {
    /// Every 512-bit quantity is below 2^512.
    pub proof fn lemma_bound(self)
        ensures
            self@ < amount_limit(),
    {
        vstd::arithmetic::mul::lemma_mul_inequality(self.l1 as int, 0xFFFFFFFFFFFFFFFFint, 0x10000000000000000int);
        vstd::arithmetic::mul::lemma_mul_inequality(self.l2 as int, 0xFFFFFFFFFFFFFFFFint, 0x100000000000000000000000000000000int);
        vstd::arithmetic::mul::lemma_mul_inequality(self.l3 as int, 0xFFFFFFFFFFFFFFFFint, 0x1000000000000000000000000000000000000000000000000int);
        vstd::arithmetic::mul::lemma_mul_inequality(self.l4 as int, 0xFFFFFFFFFFFFFFFFint, 0x10000000000000000000000000000000000000000000000000000000000000000int);
        vstd::arithmetic::mul::lemma_mul_inequality(self.l5 as int, 0xFFFFFFFFFFFFFFFFint, 0x100000000000000000000000000000000000000000000000000000000000000000000000000000000int);
        vstd::arithmetic::mul::lemma_mul_inequality(self.l6 as int, 0xFFFFFFFFFFFFFFFFint, 0x1000000000000000000000000000000000000000000000000000000000000000000000000000000000000000000000000int);
        vstd::arithmetic::mul::lemma_mul_inequality(self.l7 as int, 0xFFFFFFFFFFFFFFFFint, 0x10000000000000000000000000000000000000000000000000000000000000000000000000000000000000000000000000000000000000000int);
    }

    /// The quantity with the given small value.
    pub fn from_u64(x: u64) -> (r: Amount)
        ensures
            r@ == x,
    {
        Amount { l0: x, l1: 0, l2: 0, l3: 0, l4: 0, l5: 0, l6: 0, l7: 0 }
    }

    /// The largest representable quantity, 2^512 - 1.
    pub fn max_value() -> (r: Amount)
        ensures
            r@ == amount_limit() - 1,
    {
        Amount {
            l0: u64::MAX,
            l1: u64::MAX,
            l2: u64::MAX,
            l3: u64::MAX,
            l4: u64::MAX,
            l5: u64::MAX,
            l6: u64::MAX,
            l7: u64::MAX,
        }
    }

    /// Relies on casper_types::U512::checked_add: 512-bit addition, `None`
    /// exactly when the mathematical sum does not fit in 512 bits.
    #[verifier::external_body]
    pub fn checked_add(&self, other: &Amount) -> (r: Option<Amount>)
        ensures
            r is Some <==> self@ + other@ < amount_limit(),
            r matches Some(v) ==> v@ == self@ + other@,
    {
        let x = casper_types::U512([self.l0, self.l1, self.l2, self.l3, self.l4, self.l5, self.l6, self.l7]);
        let y = casper_types::U512([other.l0, other.l1, other.l2, other.l3, other.l4, other.l5, other.l6, other.l7]);
        x.checked_add(y).map(|z: casper_types::U512| Amount {
            l0: z.0[0], l1: z.0[1], l2: z.0[2], l3: z.0[3], l4: z.0[4], l5: z.0[5], l6: z.0[6], l7: z.0[7],
        })
    }

    /// Relies on casper_types::U512::checked_sub: 512-bit subtraction, `None`
    /// exactly when the subtrahend exceeds the minuend.
    #[verifier::external_body]
    pub fn checked_sub(&self, other: &Amount) -> (r: Option<Amount>)
        ensures
            r is Some <==> other@ <= self@,
            r matches Some(v) ==> v@ == self@ - other@,
    {
        let x = casper_types::U512([self.l0, self.l1, self.l2, self.l3, self.l4, self.l5, self.l6, self.l7]);
        let y = casper_types::U512([other.l0, other.l1, other.l2, other.l3, other.l4, other.l5, other.l6, other.l7]);
        x.checked_sub(y).map(|z: casper_types::U512| Amount {
            l0: z.0[0], l1: z.0[1], l2: z.0[2], l3: z.0[3], l4: z.0[4], l5: z.0[5], l6: z.0[6], l7: z.0[7],
        })
    }

    /// Relies on casper_types::U512::checked_mul: 512-bit multiplication,
    /// `None` exactly when the mathematical product does not fit in 512 bits.
    #[verifier::external_body]
    pub fn checked_mul(&self, other: &Amount) -> (r: Option<Amount>)
        ensures
            r is Some <==> self@ * other@ < amount_limit(),
            r matches Some(v) ==> v@ == self@ * other@,
    {
        let x = casper_types::U512([self.l0, self.l1, self.l2, self.l3, self.l4, self.l5, self.l6, self.l7]);
        let y = casper_types::U512([other.l0, other.l1, other.l2, other.l3, other.l4, other.l5, other.l6, other.l7]);
        x.checked_mul(y).map(|z: casper_types::U512| Amount {
            l0: z.0[0], l1: z.0[1], l2: z.0[2], l3: z.0[3], l4: z.0[4], l5: z.0[5], l6: z.0[6], l7: z.0[7],
        })
    }

    /// Relies on casper_types::U512::checked_div: flooring 512-bit division,
    /// `None` exactly when the divisor is zero.
    #[verifier::external_body]
    pub fn checked_div(&self, other: &Amount) -> (r: Option<Amount>)
        ensures
            r is Some <==> other@ != 0,
            r matches Some(v) ==> v@ == self@ / other@,
    {
        let x = casper_types::U512([self.l0, self.l1, self.l2, self.l3, self.l4, self.l5, self.l6, self.l7]);
        let y = casper_types::U512([other.l0, other.l1, other.l2, other.l3, other.l4, other.l5, other.l6, other.l7]);
        x.checked_div(y).map(|z: casper_types::U512| Amount {
            l0: z.0[0], l1: z.0[1], l2: z.0[2], l3: z.0[3], l4: z.0[4], l5: z.0[5], l6: z.0[6], l7: z.0[7],
        })
    }

    /// Relies on casper_types::U512's Ord: limbwise comparison from the most
    /// significant limb down orders values numerically.
    #[verifier::external_body]
    pub fn lt(&self, other: &Amount) -> (r: bool)
        ensures
            r == (self@ < other@),
    {
        let x = casper_types::U512([self.l0, self.l1, self.l2, self.l3, self.l4, self.l5, self.l6, self.l7]);
        let y = casper_types::U512([other.l0, other.l1, other.l2, other.l3, other.l4, other.l5, other.l6, other.l7]);
        x < y
    }

    /// Whether this quantity is no greater than `other`.
    pub fn le(&self, other: &Amount) -> (r: bool)
        ensures
            r == (self@ <= other@),
    {
        !other.lt(self)
    }

    /// Whether this quantity is zero.
    pub fn is_zero(&self) -> (r: bool)
        ensures
            r == (self@ == 0),
    {
        let one = Amount::from_u64(1);
        self.lt(&one)
    }
}

} // verus!
