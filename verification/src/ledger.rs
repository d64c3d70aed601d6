use vstd::prelude::*;
use vstd::pervasive::VecAdditionalExecFns;
use crate::account::AccountId;
use crate::amount::Amount;

verus! {

/// A per-account token balance book; an absent entry means a zero balance.
/// Lookups take the first matching entry and updates rewrite it in place,
/// so an account's balance is always well defined.
#[derive(Clone)]
pub struct BalanceLedger {
    pub entries: Vec<(AccountId, Amount)>,
}

impl BalanceLedger {
    /// The balance of `a` among the entries from index `i` on; the first
    /// matching entry decides, and no entry means zero.
    pub open spec fn balance_from(s: Seq<(AccountId, Amount)>, i: int, a: AccountId) -> nat
        decreases s.len() - i,
    {
        if i < 0 || i >= s.len() {
            0
        } else if s[i].0 == a {
            s[i].1@
        } else {
            Self::balance_from(s, i + 1, a)
        }
    }

    /// The balance of `a` in this ledger.
    pub open spec fn spec_balance(self, a: AccountId) -> nat {
        Self::balance_from(self.entries@, 0, a)
    }

    /// An empty ledger: every balance is zero.
    pub fn new() -> (r: BalanceLedger)
        ensures
            forall|a: AccountId| #[trigger] r.spec_balance(a) == 0,
    {
        BalanceLedger { entries: Vec::new() }
    }

    /// Rewriting the first entry for the key `t.0` leaves the balance read
    /// from `j` equal to the written value.
    proof fn lemma_update_hit(s: Seq<(AccountId, Amount)>, i: int, t: (AccountId, Amount), j: int)
        requires
            0 <= j <= i < s.len(),
            s[i].0 == t.0,
            forall|k: int| j <= k < i ==> (#[trigger] s[k]).0 != t.0,
        ensures
            Self::balance_from(s.update(i, t), j, t.0) == t.1@,
        decreases i - j,
    {
        if j == i {
            assert(s.update(i, t)[i] == t);
        } else {
            assert(s.update(i, t)[j] == s[j]);
            Self::lemma_update_hit(s, i, t, j + 1);
        }
    }

    /// Two entry lists that agree except on entries whose key is not `b`
    /// give `b` the same balance.
    proof fn lemma_agree(
        s: Seq<(AccountId, Amount)>,
        t: Seq<(AccountId, Amount)>,
        j: int,
        b: AccountId,
    )
        requires
            s.len() == t.len(),
            forall|k: int| #![trigger s[k]]
                j <= k < s.len() ==> (s[k] == t[k] || (s[k].0 != b && t[k].0 != b)),
        ensures
            Self::balance_from(s, j, b) == Self::balance_from(t, j, b),
        decreases s.len() - j,
    {
        if 0 <= j < s.len() {
            Self::lemma_agree(s, t, j + 1, b);
        }
    }

    /// Appending an entry for a key with no earlier entry gives that key the
    /// appended balance.
    proof fn lemma_push_hit(s: Seq<(AccountId, Amount)>, t: (AccountId, Amount), j: int)
        requires
            0 <= j <= s.len(),
            forall|k: int| j <= k < s.len() ==> (#[trigger] s[k]).0 != t.0,
        ensures
            Self::balance_from(s.push(t), j, t.0) == t.1@,
        decreases s.len() - j,
    {
        if j == s.len() {
            assert(s.push(t)[j] == t);
        } else {
            assert(s.push(t)[j] == s[j]);
            Self::lemma_push_hit(s, t, j + 1);
        }
    }

    /// Appending an entry for one key does not change any other balance.
    proof fn lemma_push_other(
        s: Seq<(AccountId, Amount)>,
        t: (AccountId, Amount),
        j: int,
        b: AccountId,
    )
        requires
            0 <= j <= s.len(),
            b != t.0,
        ensures
            Self::balance_from(s.push(t), j, b) == Self::balance_from(s, j, b),
        decreases s.len() - j,
    {
        if j == s.len() {
            assert(s.push(t)[j] == t);
            assert(Self::balance_from(s.push(t), j + 1, b) == 0);
        } else {
            assert(s.push(t)[j] == s[j]);
            Self::lemma_push_other(s, t, j + 1, b);
        }
    }

    /// The balance of `a`, zero if `a` has no entry.
    pub fn balance_of(&self, a: &AccountId) -> (r: Amount)
        ensures
            r@ == self.spec_balance(*a),
    {
        let mut i: usize = 0;
        while i < self.entries.len()
            invariant
                i <= self.entries.len(),
                Self::balance_from(self.entries@, i as int, *a) == self.spec_balance(*a),
            decreases self.entries.len() - i,
        {
            let e = &self.entries[i];
            if e.0 == *a {
                return e.1;
            }
            i = i + 1;
        }
        Amount::from_u64(0)
    }

    /// Make the balance of `a` exactly `v`, leaving every other balance
    /// unchanged.
    pub fn store_balance(&mut self, a: &AccountId, v: Amount)
        ensures
            final(self).spec_balance(*a) == v@,
            forall|b: AccountId|
                b != *a ==> #[trigger] final(self).spec_balance(b) == old(self).spec_balance(b),
    {
        let ghost s0 = self.entries@;
        let mut i: usize = 0;
        while i < self.entries.len()
            invariant
                i <= self.entries.len(),
                self.entries@ == s0,
                s0 == old(self).entries@,
                forall|k: int| 0 <= k < i ==> (#[trigger] s0[k]).0 != *a,
            decreases self.entries.len() - i,
        {
            let e = &self.entries[i];
            if e.0 == *a {
                self.entries.set(i, (*a, v));
                proof {
                    let s1 = s0.update(i as int, (*a, v));
                    Self::lemma_update_hit(s0, i as int, (*a, v), 0);
                    assert forall|b: AccountId| b != *a implies #[trigger] self.spec_balance(b)
                        == old(self).spec_balance(b) by {
                        assert(forall|k: int| #![trigger s1[k]]
                            0 <= k < s1.len() ==> (s1[k] == s0[k] || (s1[k].0 != b && s0[k].0
                                != b)));
                        Self::lemma_agree(s1, s0, 0, b);
                    }
                }
                return;
            }
            i = i + 1;
        }
        self.entries.push((*a, v));
        proof {
            Self::lemma_push_hit(s0, (*a, v), 0);
            assert forall|b: AccountId| b != *a implies #[trigger] self.spec_balance(b) == old(
                self,
            ).spec_balance(b) by {
                Self::lemma_push_other(s0, (*a, v), 0, b);
            }
        }
    }
}

} // verus!
