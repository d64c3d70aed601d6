use vstd::prelude::*;

verus! {

/// An opaque fixed-size account identifier (256 bits as four 64-bit words),
/// compared by equality only.
#[derive(Clone, Copy, PartialEq, Eq, Structural, Debug, Hash)]
pub struct AccountId {
    pub w0: u64,
    pub w1: u64,
    pub w2: u64,
    pub w3: u64,
}

impl AccountId {
    /// Whether this is the all-zero identifier, the default before any
    /// account has been designated.
    pub open spec fn is_nil_spec(self) -> bool {
        self.w0 == 0 && self.w1 == 0 && self.w2 == 0 && self.w3 == 0
    }

    /// The all-zero identifier.
    pub fn nil() -> (r: AccountId)
        ensures
            r.is_nil_spec(),
    {
        AccountId { w0: 0, w1: 0, w2: 0, w3: 0 }
    }

    /// A small identifier, convenient for building concrete accounts.
    pub fn from_u64(x: u64) -> (r: AccountId)
        ensures
            r == (AccountId { w0: x, w1: 0, w2: 0, w3: 0 }),
    {
        AccountId { w0: x, w1: 0, w2: 0, w3: 0 }
    }

    /// Whether this is the all-zero identifier.
    pub fn is_nil(&self) -> (r: bool)
        ensures
            r == self.is_nil_spec(),
    {
        self.w0 == 0 && self.w1 == 0 && self.w2 == 0 && self.w3 == 0
    }
}

} // verus!
