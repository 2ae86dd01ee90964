//! The registry facade: the five public operations over the full state.
//!
//! A [`Pallet`] owns the identifier allocator, the asset store, the ownership
//! index, the currency ledger and the event log. Every operation validates
//! before it mutates, so a failed operation returns its error with the whole
//! state exactly as it was.

use crate::errors::Error;
use crate::events::Event;
use crate::kitty::Kitty;
use crate::ledger::Ledger;
use crate::model::PalletModel;
use vstd::prelude::*;

verus! {

broadcast use vstd::std_specs::hash::group_hash_axioms;

/// What the registry is constructed with: the amount reserved from a
/// creator's balance per created or bred kitty.
pub struct Config {
    pub reserved_balance_when_create: u64,
}

/// The creature registry and marketplace.
pub struct Pallet {
    current_kitty_index: u64,
    kitties: vstd::hash_map::HashMapWithView<u64, Kitty>,
    owner: vstd::hash_map::HashMapWithView<u64, u64>,
    balances: Ledger,
    reserved_balance_when_create: u64,
    events: Vec<Event>,
}

impl View for Pallet {
    type V = PalletModel;

    closed spec fn view(&self) -> PalletModel {
        PalletModel {
            counter: self.current_kitty_index,
            kitties: self.kitties@,
            owners: self.owner@,
            balances: self.balances@,
            reserve_amount: self.reserved_balance_when_create,
            events: self.events@,
        }
    }
}

impl Pallet {
    /// An empty registry configured with the given reservation amount.
    pub fn new(config: Config) -> (r: Pallet)
        ensures
            r@ == PalletModel::initial(config.reserved_balance_when_create),
            r@.wf(),
    {
        proof {
            crate::laws::lemma_initial_wf(config.reserved_balance_when_create);
        }
        Pallet {
            current_kitty_index: 0,
            kitties: vstd::hash_map::HashMapWithView::new(),
            owner: vstd::hash_map::HashMapWithView::new(),
            balances: Ledger::new(),
            reserved_balance_when_create: config.reserved_balance_when_create,
            events: Vec::new(),
        }
    }

    /// The last index handed out; `0` before any kitty exists.
    pub fn current_kitty_index(&self) -> (r: u64)
        ensures
            r == self@.counter,
    {
        self.current_kitty_index
    }

    /// The kitty stored under `kitty_index`, if any.
    pub fn kitties(&self, kitty_index: u64) -> (r: Option<Kitty>)
        ensures
            match r {
                Some(k) => self@.kitties.contains_key(kitty_index)
                    && k == self@.kitties[kitty_index],
                None => !self@.kitties.contains_key(kitty_index),
            },
    {
        match self.kitties.get(&kitty_index) {
            Some(k) => Some(*k),
            None => None,
        }
    }

    /// The current owner of the kitty under `kitty_index`, if any.
    pub fn owner(&self, kitty_index: u64) -> (r: Option<u64>)
        ensures
            match r {
                Some(who) => self@.owners.contains_key(kitty_index)
                    && who == self@.owners[kitty_index],
                None => !self@.owners.contains_key(kitty_index),
            },
    {
        match self.owner.get(&kitty_index) {
            Some(who) => Some(*who),
            None => None,
        }
    }

    /// The free (spendable) balance of `who`.
    pub fn free_balance(&self, who: u64) -> (r: u64)
        ensures
            r == self@.balances.free_of(who),
    {
        self.balances.free_balance(who)
    }

    /// The reserved (escrowed) balance of `who`.
    pub fn reserved_balance(&self, who: u64) -> (r: u64)
        ensures
            r == self@.balances.reserved_of(who),
    {
        self.balances.reserved_balance(who)
    }

    /// Credits `who` with `amount` new currency, saturating at the account's
    /// representable headroom. Touches nothing but the ledger.
    pub fn deposit_creating(&mut self, who: u64, amount: u64)
        requires
            old(self)@.balances.wf(),
        ensures
            final(self)@ == (PalletModel {
                balances: old(self)@.balances.with_deposit(who, amount),
                ..old(self)@
            }),
            final(self)@.balances.wf(),
    {
        self.balances.deposit_creating(who, amount);
    }

    /// Allocates the next index, reserves the owner's escrow and registers a
    /// kitty with the given code to `owner`. The shared core of `create` and
    /// `breed`; the caller records the event.
    fn create_kitty_internal(&mut self, owner: u64, dna: [u8; 16]) -> (r: Result<u64, Error>)
        requires
            old(self)@.balances.wf(),
        ensures
            final(self)@.balances.wf(),
            r is Ok <==> old(self)@.can_spawn(owner),
            match r {
                Ok(id) => old(self)@.spawn_ok(
                    final(self)@,
                    owner,
                    id,
                    (Kitty { index: id, dna, price: 0, is_for_sale: false, creator: owner }),
                ) && final(self)@.events == old(self)@.events,
                Err(e) => final(self)@ == old(self)@ && old(self)@.spawn_err(owner, e),
            },
    {
        if self.current_kitty_index == u64::MAX {
            return Err(Error::KittyIndexOverflow);
        }
        match self.balances.reserve(owner, self.reserved_balance_when_create) {
            Err(e) => {
                return Err(e);
            },
            Ok(()) => {},
        }
        let kitty_index = self.current_kitty_index + 1;
        self.current_kitty_index = kitty_index;
        let new_kitty = Kitty {
            index: kitty_index,
            dna,
            price: 0,
            is_for_sale: false,
            creator: owner,
        };
        self.kitties.insert(kitty_index, new_kitty);
        self.owner.insert(kitty_index, owner);
        Ok(kitty_index)
    }

    /// Moves ownership of a kitty from `from` to `to` and releases `from`'s
    /// escrow exactly when `from` is the kitty's creator. The shared core of
    /// `transfer` and `buy`; the caller checks authority and records the
    /// event.
    fn transfer_internal(&mut self, kitty_index: u64, from: u64, to: u64)
        requires
            old(self)@.balances.wf(),
        ensures
            final(self)@.balances.wf(),
            final(self)@ == (PalletModel {
                owners: old(self)@.owners.insert(kitty_index, to),
                balances: if old(self)@.creator_release(kitty_index, from) {
                    old(self)@.balances.with_unreserve(from, old(self)@.reserve_amount)
                } else {
                    old(self)@.balances
                },
                ..old(self)@
            }),
    {
        let release = match self.kitties.get(&kitty_index) {
            Some(k) => k.creator == from,
            None => false,
        };
        if release {
            self.balances.unreserve(from, self.reserved_balance_when_create);
        }
        self.owner.insert(kitty_index, to);
    }

    /// Registers a new kitty carrying the given genetic code to `sender`,
    /// reserving the configured escrow from the sender's free balance.
    /// `dna` is the host randomness oracle's fresh bytes for this creation.
    /// Returns the new kitty's index.
    pub fn create(&mut self, sender: u64, dna: [u8; 16]) -> (r: Result<u64, Error>)
        requires
            old(self)@.balances.wf(),
        ensures
            final(self)@.balances.wf(),
            r is Ok <==> old(self)@.can_spawn(sender),
            match r {
                Ok(id) => old(self)@.create_ok(final(self)@, sender, dna, id),
                Err(e) => final(self)@ == old(self)@ && old(self)@.spawn_err(sender, e),
            },
    {
        let kitty_index = match self.create_kitty_internal(sender, dna) {
            Ok(i) => i,
            Err(e) => {
                return Err(e);
            },
        };
        self.events.push(Event::KittyCreated(sender, kitty_index));
        Ok(kitty_index)
    }

    /// Moves the kitty under `kitty_index` from the sender to `to`. Only the
    /// current owner may transfer; the sender's escrow is released exactly
    /// when the sender created the kitty.
    pub fn transfer(&mut self, sender: u64, to: u64, kitty_index: u64) -> (r: Result<(), Error>)
        requires
            old(self)@.balances.wf(),
        ensures
            final(self)@.balances.wf(),
            r is Ok <==> old(self)@.owner_is(kitty_index, sender),
            match r {
                Ok(()) => old(self)@.transfer_ok(final(self)@, sender, to, kitty_index),
                Err(e) => final(self)@ == old(self)@ && e == Error::NotKittyOwner,
            },
    {
        let owned = match self.owner.get(&kitty_index) {
            Some(o) => *o == sender,
            None => false,
        };
        if !owned {
            return Err(Error::NotKittyOwner);
        }
        self.transfer_internal(kitty_index, sender, to);
        self.events.push(Event::KittyTransferred(sender, to, kitty_index));
        Ok(())
    }

    /// Breeds a new kitty from two existing, distinct parents and registers
    /// it to the sender. The child's genetic code mixes the parents' codes
    /// under `selector`, the host randomness oracle's fresh bytes for this
    /// breeding; the parents stay untouched, and the sender need not own
    /// them. Returns the new kitty's index.
    pub fn breed(
        &mut self,
        sender: u64,
        kitty_index_1: u64,
        kitty_index_2: u64,
        selector: [u8; 16],
    ) -> (r: Result<u64, Error>)
        requires
            old(self)@.balances.wf(),
        ensures
            final(self)@.balances.wf(),
            r is Ok <==> {
                &&& kitty_index_1 != kitty_index_2
                &&& old(self)@.kitties.contains_key(kitty_index_1)
                &&& old(self)@.kitties.contains_key(kitty_index_2)
                &&& old(self)@.can_spawn(sender)
            },
            match r {
                Ok(id) => old(self)@.breed_ok(
                    final(self)@,
                    sender,
                    kitty_index_1,
                    kitty_index_2,
                    selector,
                    id,
                ),
                Err(e) => final(self)@ == old(self)@ && old(self)@.breed_err(
                    sender,
                    kitty_index_1,
                    kitty_index_2,
                    e,
                ),
            },
    {
        if kitty_index_1 == kitty_index_2 {
            return Err(Error::SameParentIndex);
        }
        let kitty1 = match self.kitties.get(&kitty_index_1) {
            Some(k) => *k,
            None => {
                return Err(Error::NoSuchKittyIndex);
            },
        };
        let kitty2 = match self.kitties.get(&kitty_index_2) {
            Some(k) => *k,
            None => {
                return Err(Error::NoSuchKittyIndex);
            },
        };
        let new_dna = crate::genetics::mix(&selector, &kitty1.dna, &kitty2.dna);
        let kitty_index = match self.create_kitty_internal(sender, new_dna) {
            Ok(i) => i,
            Err(e) => {
                return Err(e);
            },
        };
        self.events.push(Event::KittyBred(sender, kitty_index));
        Ok(kitty_index)
    }

    /// Lists the kitty under `kitty_index` for sale at `new_price`, or
    /// updates the price of an existing listing. Only the current owner may
    /// list, and the price must be positive.
    pub fn sell(&mut self, sender: u64, kitty_index: u64, new_price: u64) -> (r: Result<(), Error>)
        ensures
            r is Ok <==> {
                &&& old(self)@.owner_is(kitty_index, sender)
                &&& new_price > 0
                &&& old(self)@.kitties.contains_key(kitty_index)
            },
            match r {
                Ok(()) => old(self)@.sell_ok(final(self)@, sender, kitty_index, new_price),
                Err(e) => final(self)@ == old(self)@ && old(self)@.sell_err(
                    sender,
                    kitty_index,
                    new_price,
                    e,
                ),
            },
    {
        let owned = match self.owner.get(&kitty_index) {
            Some(o) => *o == sender,
            None => false,
        };
        if !owned {
            return Err(Error::NotKittyOwner);
        }
        if new_price == 0 {
            return Err(Error::InvalidSellPrice);
        }
        let mut kitty = match self.kitties.get(&kitty_index) {
            Some(k) => *k,
            None => {
                return Err(Error::NoSuchKittyIndex);
            },
        };
        kitty.is_for_sale = true;
        kitty.price = new_price;
        self.kitties.insert(kitty_index, kitty);
        self.events.push(Event::KittyOnSale(kitty_index, new_price));
        Ok(())
    }

    /// Buys the listed kitty under `kitty_index`: the buyer pays the seller
    /// the listed price, ownership moves to the buyer, the seller's escrow
    /// is released exactly when the seller created the kitty, and the
    /// listing closes. A failed payment aborts the whole purchase.
    pub fn buy(&mut self, buyer: u64, kitty_index: u64) -> (r: Result<(), Error>)
        requires
            old(self)@.balances.wf(),
        ensures
            final(self)@.balances.wf(),
            r is Ok <==> old(self)@.can_buy(buyer, kitty_index),
            match r {
                Ok(()) => old(self)@.buy_ok(final(self)@, buyer, kitty_index),
                Err(e) => final(self)@ == old(self)@ && old(self)@.buy_err(buyer, kitty_index, e),
            },
    {
        let kitty = match self.kitties.get(&kitty_index) {
            Some(k) => *k,
            None => {
                return Err(Error::NoSuchKittyIndex);
            },
        };
        let seller = match self.owner.get(&kitty_index) {
            Some(o) => *o,
            None => {
                return Err(Error::NoSuchOwner);
            },
        };
        if !kitty.is_for_sale {
            return Err(Error::KittyNotForSale);
        }
        match self.balances.transfer(buyer, seller, kitty.price) {
            Err(e) => {
                return Err(e);
            },
            Ok(()) => {},
        }
        self.transfer_internal(kitty_index, seller, buyer);
        let mut sold = kitty;
        sold.is_for_sale = false;
        self.kitties.insert(kitty_index, sold);
        self.events.push(Event::KittyBought(kitty_index, buyer));
        Ok(())
    }

    /// The most recently recorded event, if any operation has succeeded yet.
    pub fn last_event(&self) -> (r: Option<Event>)
        ensures
            match r {
                Some(e) => self@.events.len() > 0 && e == self@.events.last(),
                None => self@.events.len() == 0,
            },
    {
        let n = self.events.len();
        if n == 0 {
            None
        } else {
            Some(self.events[n - 1])
        }
    }

    /// Overwrites the allocator counter. A test harness hook: it can break
    /// the allocator's dominance over existing indices, which only a fresh
    /// registry restores.
    pub fn set_kitty_index(&mut self, kitty_index: u64)
        ensures
            final(self)@ == (PalletModel { counter: kitty_index, ..old(self)@ }),
    {
        self.current_kitty_index = kitty_index;
    }

    /// Forgets every ownership record. A test harness hook: it breaks the
    /// pairing of assets with owners, which only a fresh registry restores.
    pub fn clear_owner(&mut self)
        ensures
            final(self)@ == (PalletModel { owners: Map::empty(), ..old(self)@ }),
    {
        self.owner.clear();
    }
}

} // verus!
