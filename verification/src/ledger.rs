//! The currency ledger: free and reserved balances per account.
//!
//! The registry escrows currency by moving part of an account's balance from
//! *free* to *reserved*: reserved funds are still owned but unusable until
//! released. A well-formed ledger keeps every account's free and reserved
//! balances together within `u64`, so reserving and releasing never
//! overflow; only crediting an account (a deposit or a payment) can run out
//! of room, and those operations saturate or refuse. Every constructor and
//! mutating operation of [`Ledger`] keeps the ledger well-formed.

use crate::errors::Error;
use vstd::prelude::*;

verus! {

broadcast use vstd::std_specs::hash::group_hash_axioms, vstd::hash_map::group_hash_map_axioms;

/// The mathematical model of a ledger: two partial maps from account to
/// balance. An account absent from a map holds balance zero there.
pub ghost struct LedgerModel {
    pub free: Map<u64, u64>,
    pub reserved: Map<u64, u64>,
}

impl LedgerModel {
    /// The ledger with no balances at all.
    pub open spec fn empty() -> LedgerModel {
        LedgerModel { free: Map::empty(), reserved: Map::empty() }
    }

    /// The free balance of `who`; zero when unrecorded.
    pub open spec fn free_of(self, who: u64) -> u64 {
        if self.free.contains_key(who) {
            self.free[who]
        } else {
            0
        }
    }

    /// The reserved balance of `who`; zero when unrecorded.
    pub open spec fn reserved_of(self, who: u64) -> u64 {
        if self.reserved.contains_key(who) {
            self.reserved[who]
        } else {
            0
        }
    }

    /// Every account's free and reserved balances together fit in `u64`.
    pub open spec fn wf(self) -> bool {
        forall|who: u64|
            #![trigger self.free_of(who)]
            self.free_of(who) + self.reserved_of(who) <= u64::MAX
    }

    /// The ledger after crediting `who` with `amount`, saturating at the
    /// account's representable headroom.
    pub open spec fn with_deposit(self, who: u64, amount: u64) -> LedgerModel
        recommends
            self.wf(),
    {
        let headroom = u64::MAX - self.free_of(who) - self.reserved_of(who);
        let credit = if amount <= headroom {
            amount as int
        } else {
            headroom
        };
        LedgerModel {
            free: self.free.insert(who, (self.free_of(who) + credit) as u64),
            reserved: self.reserved,
        }
    }

    /// The ledger after moving `amount` of `who`'s balance from free to
    /// reserved.
    pub open spec fn with_reserve(self, who: u64, amount: u64) -> LedgerModel
        recommends
            self.wf(),
            self.free_of(who) >= amount,
    {
        LedgerModel {
            free: self.free.insert(who, (self.free_of(who) - amount) as u64),
            reserved: self.reserved.insert(who, (self.reserved_of(who) + amount) as u64),
        }
    }

    /// How much of a release request actually moves: the request, capped at
    /// what is reserved.
    pub open spec fn unreserve_amount(self, who: u64, amount: u64) -> u64 {
        if self.reserved_of(who) < amount {
            self.reserved_of(who)
        } else {
            amount
        }
    }

    /// The ledger after releasing up to `amount` of `who`'s reserved balance
    /// back to free.
    pub open spec fn with_unreserve(self, who: u64, amount: u64) -> LedgerModel
        recommends
            self.wf(),
    {
        let actual = self.unreserve_amount(who, amount);
        LedgerModel {
            free: self.free.insert(who, (self.free_of(who) + actual) as u64),
            reserved: self.reserved.insert(who, (self.reserved_of(who) - actual) as u64),
        }
    }

    /// Whether `from` can pay `amount` to `to`: the sender's free balance
    /// covers it and the receiver has room for it.
    pub open spec fn can_transfer(self, from: u64, to: u64, amount: u64) -> bool {
        &&& self.free_of(from) >= amount
        &&& (from == to || self.free_of(to) + self.reserved_of(to) + amount <= u64::MAX)
    }

    /// The ledger after `from` pays `amount` to `to`. A payment to oneself
    /// moves nothing.
    pub open spec fn with_transfer(self, from: u64, to: u64, amount: u64) -> LedgerModel
        recommends
            self.wf(),
            self.can_transfer(from, to, amount),
    {
        if from == to {
            self
        } else {
            LedgerModel {
                free: self.free.insert(from, (self.free_of(from) - amount) as u64).insert(
                    to,
                    (self.free_of(to) + amount) as u64,
                ),
                reserved: self.reserved,
            }
        }
    }
}

/// A deposit keeps the ledger well-formed: the credit saturates at the
/// account's headroom.
pub proof fn lemma_with_deposit_wf(m: LedgerModel, who: u64, amount: u64)
    requires
        m.wf(),
    ensures
        m.with_deposit(who, amount).wf(),
{
    let post = m.with_deposit(who, amount);
    assert forall|a: u64| #![trigger post.free_of(a)]
        post.free_of(a) + post.reserved_of(a) <= u64::MAX by {
        assert(m.free_of(a) + m.reserved_of(a) <= u64::MAX);
    }
}

/// A reservation keeps the ledger well-formed: it only moves balance
/// between the two sides of one account.
pub proof fn lemma_with_reserve_wf(m: LedgerModel, who: u64, amount: u64)
    requires
        m.wf(),
        m.free_of(who) >= amount,
    ensures
        m.with_reserve(who, amount).wf(),
{
    let post = m.with_reserve(who, amount);
    assert forall|a: u64| #![trigger post.free_of(a)]
        post.free_of(a) + post.reserved_of(a) <= u64::MAX by {
        assert(m.free_of(a) + m.reserved_of(a) <= u64::MAX);
    }
}

/// A release keeps the ledger well-formed: it only moves balance between
/// the two sides of one account.
pub proof fn lemma_with_unreserve_wf(m: LedgerModel, who: u64, amount: u64)
    requires
        m.wf(),
    ensures
        m.with_unreserve(who, amount).wf(),
{
    let post = m.with_unreserve(who, amount);
    assert forall|a: u64| #![trigger post.free_of(a)]
        post.free_of(a) + post.reserved_of(a) <= u64::MAX by {
        assert(m.free_of(a) + m.reserved_of(a) <= u64::MAX);
    }
}

/// A payment keeps the ledger well-formed: the sender's total shrinks and
/// the receiver's room was checked.
pub proof fn lemma_with_transfer_wf(m: LedgerModel, from: u64, to: u64, amount: u64)
    requires
        m.wf(),
        m.can_transfer(from, to, amount),
    ensures
        m.with_transfer(from, to, amount).wf(),
{
    let post = m.with_transfer(from, to, amount);
    assert forall|a: u64| #![trigger post.free_of(a)]
        post.free_of(a) + post.reserved_of(a) <= u64::MAX by {
        assert(m.free_of(a) + m.reserved_of(a) <= u64::MAX);
        assert(m.free_of(from) + m.reserved_of(from) <= u64::MAX);
    }
}

/// The executable ledger.
pub struct Ledger {
    free: vstd::hash_map::HashMapWithView<u64, u64>,
    reserved: vstd::hash_map::HashMapWithView<u64, u64>,
}

impl View for Ledger {
    type V = LedgerModel;

    closed spec fn view(&self) -> LedgerModel {
        LedgerModel { free: self.free@, reserved: self.reserved@ }
    }
}

impl Ledger {
    /// A ledger with no balances.
    pub fn new() -> (r: Ledger)
        ensures
            r@ == LedgerModel::empty(),
            r@.wf(),
    {
        let free = vstd::hash_map::HashMapWithView::new();
        let reserved = vstd::hash_map::HashMapWithView::new();
        Ledger { free, reserved }
    }

    /// The free (spendable) balance of `who`.
    pub fn free_balance(&self, who: u64) -> (r: u64)
        ensures
            r == self@.free_of(who),
    {
        match self.free.get(&who) {
            Some(v) => *v,
            None => 0,
        }
    }

    /// The reserved (escrowed) balance of `who`.
    pub fn reserved_balance(&self, who: u64) -> (r: u64)
        ensures
            r == self@.reserved_of(who),
    {
        match self.reserved.get(&who) {
            Some(v) => *v,
            None => 0,
        }
    }

    /// Credits `who` with `amount` new currency, saturating at the account's
    /// representable headroom.
    pub fn deposit_creating(&mut self, who: u64, amount: u64)
        requires
            old(self)@.wf(),
        ensures
            final(self)@ == old(self)@.with_deposit(who, amount),
            final(self)@.wf(),
    {
        let free = self.free_balance(who);
        let reserved = self.reserved_balance(who);
        let headroom = u64::MAX - free - reserved;
        let credit = if amount <= headroom {
            amount
        } else {
            headroom
        };
        self.free.insert(who, free + credit);
        proof {
            lemma_with_deposit_wf(old(self)@, who, amount);
        }
    }

    /// Locks `amount` of `who`'s free balance as reserved; refuses when the
    /// free balance cannot cover it.
    pub fn reserve(&mut self, who: u64, amount: u64) -> (r: Result<(), Error>)
        requires
            old(self)@.wf(),
        ensures
            final(self)@.wf(),
            match r {
                Ok(()) => old(self)@.free_of(who) >= amount && final(self)@ == old(
                    self,
                )@.with_reserve(who, amount),
                Err(e) => {
                    &&& old(self)@.free_of(who) < amount
                    &&& final(self)@ == old(self)@
                    &&& e == Error::InsufficientBalance
                },
            },
    {
        let free = self.free_balance(who);
        if free < amount {
            return Err(Error::InsufficientBalance);
        }
        let reserved = self.reserved_balance(who);
        self.free.insert(who, free - amount);
        self.reserved.insert(who, reserved + amount);
        proof {
            lemma_with_reserve_wf(old(self)@, who, amount);
        }
        Ok(())
    }

    /// Releases up to `amount` of `who`'s reserved balance back to free.
    /// Best-effort: releases what is reserved when that is less than the
    /// request, and never fails.
    pub fn unreserve(&mut self, who: u64, amount: u64)
        requires
            old(self)@.wf(),
        ensures
            final(self)@ == old(self)@.with_unreserve(who, amount),
            final(self)@.wf(),
    {
        let free = self.free_balance(who);
        let reserved = self.reserved_balance(who);
        let actual = if reserved < amount {
            reserved
        } else {
            amount
        };
        self.free.insert(who, free + actual);
        self.reserved.insert(who, reserved - actual);
        proof {
            lemma_with_unreserve_wf(old(self)@, who, amount);
        }
    }

    /// Moves `amount` from `from`'s free balance to `to`'s free balance.
    /// Refuses with `InsufficientBalance` when `from` cannot cover it, and
    /// with `BalanceOverflow` when crediting `to` would exceed the
    /// representable balance range.
    pub fn transfer(&mut self, from: u64, to: u64, amount: u64) -> (r: Result<(), Error>)
        requires
            old(self)@.wf(),
        ensures
            final(self)@.wf(),
            r is Ok <==> old(self)@.can_transfer(from, to, amount),
            match r {
                Ok(()) => final(self)@ == old(self)@.with_transfer(from, to, amount),
                Err(e) => {
                    &&& final(self)@ == old(self)@
                    &&& e == (if old(self)@.free_of(from) < amount {
                        Error::InsufficientBalance
                    } else {
                        Error::BalanceOverflow
                    })
                },
            },
    {
        let from_free = self.free_balance(from);
        if from_free < amount {
            return Err(Error::InsufficientBalance);
        }
        if from == to {
            return Ok(());
        }
        let to_free = self.free_balance(to);
        let to_reserved = self.reserved_balance(to);
        let headroom = u64::MAX - to_free - to_reserved;
        if amount > headroom {
            return Err(Error::BalanceOverflow);
        }
        self.free.insert(from, from_free - amount);
        self.free.insert(to, to_free + amount);
        proof {
            lemma_with_transfer_wf(old(self)@, from, to, amount);
        }
        Ok(())
    }
}

} // verus!
