use vstd::prelude::*;
use vstd::pervasive::VecAdditionalExecFns;
use crate::account::AccountId;
use crate::amount::Amount;

verus! {

/// Errors of the escrow vault.
#[derive(Clone, Copy, PartialEq, Eq, Structural, Debug)]
pub enum VaultError {
    InsufficientBalance,
    OrderNotFound,
    NotOrderOwner,
    NotAuthorized,
    AlreadyLocked,
    InvalidAmount,
    TransferFailed,
    MissingKey,
}

/// One escrow entry: who locked value under the order id, and how much of it
/// is still held.
#[derive(Clone, Copy, PartialEq, Eq, Structural, Debug)]
pub struct VaultEntry {
    pub owner: AccountId,
    pub locked: Amount,
}

/// The escrow vault: value locked under caller-chosen string order ids. An
/// order id maps to one owner for its lifetime; the locked amount is set once
/// and only decreases afterwards.
pub struct VaultState {
    pub admin: AccountId,
    /// The account allowed to unlock besides the admin; the all-zero
    /// identifier means that none has been designated yet.
    pub order_book: AccountId,
    pub entries: Vec<(String, VaultEntry)>,
}

impl VaultState {
    /// The entry for `id` among the entries from index `i` on; the first
    /// matching entry decides.
    pub open spec fn entry_from(s: Seq<(String, VaultEntry)>, i: int, id: Seq<char>) -> Option<
        VaultEntry,
    >
        decreases s.len() - i,
    {
        if i < 0 || i >= s.len() {
            None
        } else if s[i].0@ == id {
            Some(s[i].1)
        } else {
            Self::entry_from(s, i + 1, id)
        }
    }

    /// The entry stored under `id`, if any.
    pub open spec fn spec_entry(self, id: Seq<char>) -> Option<VaultEntry> {
        Self::entry_from(self.entries@, 0, id)
    }

    /// The value still locked under `id`; zero when no entry exists.
    pub open spec fn spec_locked(self, id: Seq<char>) -> nat {
        match self.spec_entry(id) {
            Some(e) => e.locked@,
            None => 0,
        }
    }

    /// The owner of the entry under `id`, if any.
    pub open spec fn spec_owner(self, id: Seq<char>) -> Option<AccountId> {
        match self.spec_entry(id) {
            Some(e) => Some(e.owner),
            None => None,
        }
    }

    /// Whether `caller` may unlock escrowed value: the admin always, the
    /// designated order-book account only once one has been designated (the
    /// all-zero default never qualifies).
    pub open spec fn spec_is_authorized(self, caller: AccountId) -> bool {
        caller == self.admin || (caller == self.order_book && !self.order_book.is_nil_spec())
    }

    /// A vault with no escrow entries and no designated order book.
    pub fn new(admin: AccountId) -> (r: VaultState)
        ensures
            r.admin == admin,
            r.order_book.is_nil_spec(),
            forall|id: Seq<char>| #[trigger] r.spec_entry(id) is None,
    {
        VaultState { admin, order_book: AccountId::nil(), entries: Vec::new() }
    }

    /// Rewriting the first entry for the key of `t` leaves the entry read
    /// from `j` equal to the written one.
    proof fn lemma_update_hit(s: Seq<(String, VaultEntry)>, i: int, t: (String, VaultEntry), j: int)
        requires
            0 <= j <= i < s.len(),
            s[i].0@ == t.0@,
            forall|k: int| j <= k < i ==> (#[trigger] s[k]).0@ != t.0@,
        ensures
            Self::entry_from(s.update(i, t), j, t.0@) == Some(t.1),
        decreases i - j,
    {
        if j == i {
            assert(s.update(i, t)[i] == t);
        } else {
            assert(s.update(i, t)[j] == s[j]);
            Self::lemma_update_hit(s, i, t, j + 1);
        }
    }

    /// Two entry lists that agree except on entries whose key is not `b`
    /// hold the same entry for `b`.
    proof fn lemma_agree(
        s: Seq<(String, VaultEntry)>,
        t: Seq<(String, VaultEntry)>,
        j: int,
        b: Seq<char>,
    )
        requires
            s.len() == t.len(),
            forall|k: int| #![trigger s[k]]
                j <= k < s.len() ==> (s[k] == t[k] || (s[k].0@ != b && t[k].0@ != b)),
        ensures
            Self::entry_from(s, j, b) == Self::entry_from(t, j, b),
        decreases s.len() - j,
    {
        if 0 <= j < s.len() {
            Self::lemma_agree(s, t, j + 1, b);
        }
    }

    /// Appending an entry for a key with no earlier entry makes it the entry
    /// for that key.
    proof fn lemma_push_hit(s: Seq<(String, VaultEntry)>, t: (String, VaultEntry), j: int)
        requires
            0 <= j <= s.len(),
            forall|k: int| j <= k < s.len() ==> (#[trigger] s[k]).0@ != t.0@,
        ensures
            Self::entry_from(s.push(t), j, t.0@) == Some(t.1),
        decreases s.len() - j,
    {
        if j == s.len() {
            assert(s.push(t)[j] == t);
        } else {
            assert(s.push(t)[j] == s[j]);
            Self::lemma_push_hit(s, t, j + 1);
        }
    }

    /// Appending an entry for one key does not change the entry of any other.
    proof fn lemma_push_other(s: Seq<(String, VaultEntry)>, t: (String, VaultEntry), j: int, b: Seq<char>)
        requires
            0 <= j <= s.len(),
            b != t.0@,
        ensures
            Self::entry_from(s.push(t), j, b) == Self::entry_from(s, j, b),
        decreases s.len() - j,
    {
        if j == s.len() {
            assert(s.push(t)[j] == t);
            assert(Self::entry_from(s.push(t), j + 1, b) is None);
        } else {
            assert(s.push(t)[j] == s[j]);
            Self::lemma_push_other(s, t, j + 1, b);
        }
    }

    /// The index of the entry for `order_id`, if one exists.
    fn find_entry(&self, order_id: &String) -> (r: Option<usize>)
        ensures
            r matches Some(i) ==> i < self.entries@.len() && self.entries@[i as int].0@
                == order_id@ && self.spec_entry(order_id@) == Some(self.entries@[i as int].1) && (
            forall|k: int| 0 <= k < i ==> (#[trigger] self.entries@[k]).0@ != order_id@),
            r is None ==> self.spec_entry(order_id@) is None,
    {
        let mut i: usize = 0;
        while i < self.entries.len()
            invariant
                i <= self.entries.len(),
                Self::entry_from(self.entries@, i as int, order_id@) == self.spec_entry(order_id@),
                forall|k: int| 0 <= k < i ==> (#[trigger] self.entries@[k]).0@ != order_id@,
            decreases self.entries.len() - i,
        {
            let e = &self.entries[i];
            if e.0 == *order_id {
                return Some(i);
            }
            i = i + 1;
        }
        None
    }

    /// Lock a positive amount under a fresh order id; the caller becomes the
    /// entry's owner. Re-locking an id that already has an entry is rejected.
    pub fn lock_cspr(&mut self, caller: AccountId, order_id: String, amount: &Amount) -> (r:
        Result<(), VaultError>)
        ensures
            r is Ok <==> (amount@ != 0 && old(self).spec_entry(order_id@) is None),
            r is Ok ==> final(self).spec_entry(order_id@) == Some(
                VaultEntry { owner: caller, locked: *amount },
            ),
            r is Ok ==> final(self).spec_locked(order_id@) == amount@,
            r is Ok ==> forall|b: Seq<char>|
                b != order_id@ ==> #[trigger] final(self).spec_entry(b) == old(self).spec_entry(b),
            final(self).admin == old(self).admin && final(self).order_book == old(self).order_book,
            r matches Err(e) ==> *final(self) == *old(self) && e == (if amount@ == 0 {
                VaultError::InvalidAmount
            } else {
                VaultError::AlreadyLocked
            }),
    {
        if amount.is_zero() {
            return Err(VaultError::InvalidAmount);
        }
        match self.find_entry(&order_id) {
            Some(_) => Err(VaultError::AlreadyLocked),
            None => {
                let ghost s0 = self.entries@;
                let entry = VaultEntry { owner: caller, locked: *amount };
                proof {
                    assert(Self::entry_from(s0, 0, order_id@) is None);
                }
                self.entries.push((order_id, entry));
                proof {
                    let t = (self.entries@[s0.len() as int].0, entry);
                    assert(self.entries@ == s0.push(t));
                    assert forall|k: int| 0 <= k < s0.len() implies (#[trigger] s0[k]).0@ != t.0@
                        by {
                        if s0[k].0@ == t.0@ {
                            Self::lemma_entry_from_some(s0, k, t.0@);
                        }
                    }
                    Self::lemma_push_hit(s0, t, 0);
                    assert forall|b: Seq<char>| b != t.0@ implies #[trigger] self.spec_entry(b)
                        == old(self).spec_entry(b) by {
                        Self::lemma_push_other(s0, t, 0, b);
                    }
                }
                Ok(())
            },
        }
    }

    /// A matching entry anywhere gives the key an entry.
    proof fn lemma_entry_from_some(s: Seq<(String, VaultEntry)>, k: int, id: Seq<char>)
        requires
            0 <= k < s.len(),
            s[k].0@ == id,
        ensures
            Self::entry_from(s, 0, id) is Some,
        decreases s.len(),
    {
        Self::lemma_entry_from_some_from(s, 0, k, id);
    }

    /// A matching entry at or after `j` gives the key an entry from `j` on.
    proof fn lemma_entry_from_some_from(s: Seq<(String, VaultEntry)>, j: int, k: int, id: Seq<char>)
        requires
            0 <= j <= k < s.len(),
            s[k].0@ == id,
        ensures
            Self::entry_from(s, j, id) is Some,
        decreases k - j,
    {
        if j < k && s[j].0@ != id {
            Self::lemma_entry_from_some_from(s, j + 1, k, id);
        }
    }

    /// Release `amount` of the value locked under `order_id` to `recipient`.
    /// Only the admin or the designated order book may call; the entry stays,
    /// at a reduced amount, so repeated partial unlocks are possible.
    pub fn unlock_cspr(
        &mut self,
        caller: AccountId,
        order_id: &String,
        recipient: AccountId,
        amount: &Amount,
    ) -> (r: Result<(), VaultError>)
        ensures
            r is Ok <==> (old(self).spec_is_authorized(caller) && old(self).spec_entry(order_id@)
                is Some && amount@ <= old(self).spec_locked(order_id@)),
            r is Ok ==> final(self).spec_locked(order_id@) == old(self).spec_locked(order_id@)
                - amount@,
            r is Ok ==> final(self).spec_owner(order_id@) == old(self).spec_owner(order_id@),
            r is Ok ==> forall|b: Seq<char>|
                b != order_id@ ==> #[trigger] final(self).spec_entry(b) == old(self).spec_entry(b),
            final(self).admin == old(self).admin && final(self).order_book == old(self).order_book,
            r matches Err(e) ==> *final(self) == *old(self) && e == (if !old(
                self,
            ).spec_is_authorized(caller) {
                VaultError::NotAuthorized
            } else if old(self).spec_entry(order_id@) is None {
                VaultError::OrderNotFound
            } else {
                VaultError::InsufficientBalance
            }),
    {
        let _ = recipient;
        let authorized = caller == self.admin || (caller == self.order_book
            && !self.order_book.is_nil());
        if !authorized {
            return Err(VaultError::NotAuthorized);
        }
        let i = match self.find_entry(order_id) {
            Some(i) => i,
            None => {
                return Err(VaultError::OrderNotFound);
            },
        };
        let entry = self.entries[i].1;
        let remaining = match entry.locked.checked_sub(amount) {
            Some(v) => v,
            None => {
                return Err(VaultError::InsufficientBalance);
            },
        };
        let key = self.entries[i].0.clone();
        let ghost s0 = self.entries@;
        let updated = VaultEntry { owner: entry.owner, locked: remaining };
        self.entries.set(i, (key, updated));
        proof {
            let t = (self.entries@[i as int].0, updated);
            assert(t.0 == s0[i as int].0);
            assert(self.entries@ == s0.update(i as int, t));
            Self::lemma_update_hit(s0, i as int, t, 0);
            assert forall|b: Seq<char>| b != order_id@ implies #[trigger] self.spec_entry(b) == old(
                self,
            ).spec_entry(b) by {
                assert(forall|k: int| #![trigger s0[k]]
                    0 <= k < s0.len() ==> (s0.update(i as int, t)[k] == s0[k] || (s0.update(
                        i as int,
                        t,
                    )[k].0@ != b && s0[k].0@ != b)));
                Self::lemma_agree(s0.update(i as int, t), s0, 0, b);
            }
        }
        Ok(())
    }

    /// Refund the full remaining locked value of `order_id` to its owner and
    /// zero the entry. Owner only; succeeds, as a no-op, when nothing is
    /// locked any more. `Ok` carries the refunded value.
    pub fn cancel_order(&mut self, caller: AccountId, order_id: &String) -> (r: Result<
        Amount,
        VaultError,
    >)
        ensures
            r is Ok <==> old(self).spec_owner(order_id@) == Some(caller),
            r matches Ok(refund) ==> refund@ == old(self).spec_locked(order_id@),
            r is Ok ==> final(self).spec_locked(order_id@) == 0,
            r is Ok ==> final(self).spec_owner(order_id@) == old(self).spec_owner(order_id@),
            r is Ok ==> forall|b: Seq<char>|
                b != order_id@ ==> #[trigger] final(self).spec_entry(b) == old(self).spec_entry(b),
            final(self).admin == old(self).admin && final(self).order_book == old(self).order_book,
            r matches Err(e) ==> *final(self) == *old(self) && e == (if old(self).spec_entry(
                order_id@,
            ) is None {
                VaultError::OrderNotFound
            } else {
                VaultError::NotOrderOwner
            }),
    {
        let i = match self.find_entry(order_id) {
            Some(i) => i,
            None => {
                return Err(VaultError::OrderNotFound);
            },
        };
        let entry = self.entries[i].1;
        if !(entry.owner == caller) {
            return Err(VaultError::NotOrderOwner);
        }
        let refund = entry.locked;
        let key = self.entries[i].0.clone();
        let ghost s0 = self.entries@;
        let updated = VaultEntry { owner: entry.owner, locked: Amount::from_u64(0) };
        self.entries.set(i, (key, updated));
        proof {
            let t = (self.entries@[i as int].0, updated);
            assert(t.0 == s0[i as int].0);
            assert(self.entries@ == s0.update(i as int, t));
            Self::lemma_update_hit(s0, i as int, t, 0);
            assert forall|b: Seq<char>| b != order_id@ implies #[trigger] self.spec_entry(b) == old(
                self,
            ).spec_entry(b) by {
                assert(forall|k: int| #![trigger s0[k]]
                    0 <= k < s0.len() ==> (s0.update(i as int, t)[k] == s0[k] || (s0.update(
                        i as int,
                        t,
                    )[k].0@ != b && s0[k].0@ != b)));
                Self::lemma_agree(s0.update(i as int, t), s0, 0, b);
            }
        }
        Ok(refund)
    }

    /// Designate the order-book account that may unlock escrowed value.
    /// Admin only.
    pub fn set_order_book(&mut self, caller: AccountId, order_book: AccountId) -> (r: Result<
        (),
        VaultError,
    >)
        ensures
            r is Ok <==> caller == old(self).admin,
            r is Ok ==> final(self).order_book == order_book,
            r is Ok ==> final(self).admin == old(self).admin && final(self).entries == old(
                self,
            ).entries,
            r matches Err(e) ==> *final(self) == *old(self) && e == VaultError::NotAuthorized,
    {
        if !(caller == self.admin) {
            return Err(VaultError::NotAuthorized);
        }
        self.order_book = order_book;
        Ok(())
    }

    /// The value still locked under `order_id`; zero when no entry exists.
    pub fn get_locked_amount(&self, order_id: &String) -> (r: Amount)
        ensures
            r@ == self.spec_locked(order_id@),
    {
        match self.find_entry(order_id) {
            Some(i) => self.entries[i].1.locked,
            None => Amount::from_u64(0),
        }
    }
}

} // verus!
