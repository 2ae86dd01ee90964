//! The mathematical model of the registry and its transitions.
//!
//! [`PalletModel`] is the abstract state: the identifier counter, the asset
//! store, the ownership index, the currency ledger and the event log. Each
//! public operation of [`crate::registry::Pallet`] promises, in its contract,
//! that on success the state moves along the matching `*_ok` relation here,
//! and that on failure the state is exactly what it was, with the error the
//! matching `*_err` predicate describes.

use crate::errors::Error;
use crate::events::Event;
use crate::genetics::mixed;
use crate::kitty::Kitty;
use crate::ledger::LedgerModel;
use vstd::prelude::*;

verus! {

/// One request to the registry, carrying the arguments of the operation it
/// names. The test harness hooks (`set_kitty_index`, `clear_owner`) are not
/// operations and have no place here.
pub ghost enum Op {
    Create { sender: u64, dna: [u8; 16] },
    Transfer { sender: u64, to: u64, id: u64 },
    Breed { sender: u64, id1: u64, id2: u64, selector: [u8; 16] },
    Sell { sender: u64, id: u64, price: u64 },
    Buy { buyer: u64, id: u64 },
    Deposit { who: u64, amount: u64 },
}

/// A run of the registry: `states` visits `ops.len() + 1` states, each
/// consecutive pair linked by [`PalletModel::step`] under the matching
/// request and issue.
pub open spec fn run(states: Seq<PalletModel>, ops: Seq<Op>, issues: Seq<Option<u64>>) -> bool {
    &&& states.len() == ops.len() + 1
    &&& issues.len() == ops.len()
    &&& forall|i: int|
        0 <= i < ops.len() ==> #[trigger] states[i].step(ops[i], states[i + 1], issues[i])
}

/// The full observable state of the registry.
pub ghost struct PalletModel {
    /// The identifier allocator: the last index handed out, `0` initially.
    pub counter: u64,
    /// The asset store, keyed by kitty index.
    pub kitties: Map<u64, Kitty>,
    /// The ownership index: kitty index to current owning account.
    pub owners: Map<u64, u64>,
    /// The currency ledger: free and reserved balances.
    pub balances: LedgerModel,
    /// The amount reserved from a creator's balance per created or bred
    /// kitty.
    pub reserve_amount: u64,
    /// The events recorded so far, one per successful operation.
    pub events: Seq<Event>,
}

impl PalletModel {
    /// The state of a freshly constructed registry.
    pub open spec fn initial(reserve_amount: u64) -> PalletModel {
        PalletModel {
            counter: 0,
            kitties: Map::empty(),
            owners: Map::empty(),
            balances: LedgerModel::empty(),
            reserve_amount,
            events: Seq::empty(),
        }
    }

    /// `who` is recorded as the current owner of kitty `id`.
    pub open spec fn owner_is(self, id: u64, who: u64) -> bool {
        self.owners.contains_key(id) && self.owners[id] == who
    }

    /// Escrow release is due when `from` gives kitty `id` away: exactly when
    /// `from` is the stored creator of that kitty.
    pub open spec fn creator_release(self, id: u64, from: u64) -> bool {
        self.kitties.contains_key(id) && self.kitties[id].creator == from
    }

    /// A listed kitty always carries a positive price.
    pub open spec fn sale_inv(self) -> bool {
        forall|id: u64|
            #[trigger] self.kitties.contains_key(id) ==> (self.kitties[id].is_for_sale
                ==> self.kitties[id].price > 0)
    }

    /// Every stored kitty's index lies between 1 and the counter: the
    /// allocator counter dominates every identifier ever issued.
    pub open spec fn ids_bounded(self) -> bool {
        forall|id: u64| #[trigger] self.kitties.contains_key(id) ==> 1 <= id <= self.counter
    }

    /// Every stored kitty has exactly one ownership entry and vice versa.
    pub open spec fn owners_match(self) -> bool {
        self.owners.dom() == self.kitties.dom()
    }

    /// Every stored kitty records the index it is keyed under.
    pub open spec fn indexed(self) -> bool {
        forall|id: u64| #[trigger] self.kitties.contains_key(id) ==> self.kitties[id].index == id
    }

    /// Well-formedness: the balance bound and the cross-map invariants that
    /// every operation preserves.
    pub open spec fn wf(self) -> bool {
        &&& self.balances.wf()
        &&& self.owners_match()
        &&& self.ids_bounded()
        &&& self.indexed()
        &&& self.sale_inv()
    }

    /// Registering a new kitty (by creation or breeding) is owed success
    /// exactly when the counter has room and the sender can cover the
    /// reservation.
    pub open spec fn can_spawn(self, sender: u64) -> bool {
        &&& self.counter < u64::MAX
        &&& self.balances.free_of(sender) >= self.reserve_amount
    }

    /// The registration core shared by creation and breeding: allocate the
    /// next index, reserve the sender's escrow, store `child` under the new
    /// index and record the sender as its owner. The event is the caller's.
    pub open spec fn spawn_ok(self, post: PalletModel, sender: u64, id: u64, child: Kitty) -> bool {
        &&& self.can_spawn(sender)
        &&& id == self.counter + 1
        &&& child.is_new(id, sender)
        &&& post.counter == id
        &&& post.kitties == self.kitties.insert(id, child)
        &&& post.owners == self.owners.insert(id, sender)
        &&& post.balances == self.balances.with_reserve(sender, self.reserve_amount)
        &&& post.reserve_amount == self.reserve_amount
    }

    /// Why registration was refused: counter exhaustion takes precedence
    /// over an uncoverable reservation.
    pub open spec fn spawn_err(self, sender: u64, e: Error) -> bool {
        if self.counter == u64::MAX {
            e == Error::KittyIndexOverflow
        } else {
            self.balances.free_of(sender) < self.reserve_amount && e == Error::InsufficientBalance
        }
    }

    /// A successful `create`: a kitty with the given code, registered to the
    /// sender.
    pub open spec fn create_ok(
        self,
        post: PalletModel,
        sender: u64,
        dna: [u8; 16],
        id: u64,
    ) -> bool {
        &&& self.spawn_ok(
            post,
            sender,
            id,
            (Kitty { index: id, dna, price: 0, is_for_sale: false, creator: sender }),
        )
        &&& post.events == self.events.push(Event::KittyCreated(sender, id))
    }

    /// A successful `transfer`: ownership moves from the sender to `to`, and
    /// the sender's escrow is released exactly when the sender is the
    /// kitty's creator.
    pub open spec fn transfer_ok(self, post: PalletModel, sender: u64, to: u64, id: u64) -> bool {
        &&& self.owner_is(id, sender)
        &&& post == (PalletModel {
            owners: self.owners.insert(id, to),
            balances: if self.creator_release(id, sender) {
                self.balances.with_unreserve(sender, self.reserve_amount)
            } else {
                self.balances
            },
            events: self.events.push(Event::KittyTransferred(sender, to, id)),
            ..self
        })
    }

    /// A successful `breed`: the parents exist, are distinct and stay
    /// untouched; a new kitty owned by the sender carries the mix of the
    /// parents' codes under the selector.
    pub open spec fn breed_ok(
        self,
        post: PalletModel,
        sender: u64,
        id1: u64,
        id2: u64,
        selector: [u8; 16],
        id: u64,
    ) -> bool {
        &&& id1 != id2
        &&& self.kitties.contains_key(id1)
        &&& self.kitties.contains_key(id2)
        &&& self.spawn_ok(post, sender, id, post.kitties[id])
        &&& post.kitties[id].dna@ == mixed(
            selector@,
            self.kitties[id1].dna@,
            self.kitties[id2].dna@,
        )
        &&& post.events == self.events.push(Event::KittyBred(sender, id))
    }

    /// Why `breed` was refused, in the order the checks run: equal parents,
    /// then a missing parent, then the registration refusals.
    pub open spec fn breed_err(self, sender: u64, id1: u64, id2: u64, e: Error) -> bool {
        if id1 == id2 {
            e == Error::SameParentIndex
        } else if !self.kitties.contains_key(id1) || !self.kitties.contains_key(id2) {
            e == Error::NoSuchKittyIndex
        } else {
            self.spawn_err(sender, e)
        }
    }

    /// A successful `sell`: the kitty is listed (or re-listed) at the given
    /// positive price.
    pub open spec fn sell_ok(self, post: PalletModel, sender: u64, id: u64, price: u64) -> bool {
        &&& self.owner_is(id, sender)
        &&& price > 0
        &&& self.kitties.contains_key(id)
        &&& post == (PalletModel {
            kitties: self.kitties.insert(
                id,
                (Kitty { price, is_for_sale: true, ..self.kitties[id] }),
            ),
            events: self.events.push(Event::KittyOnSale(id, price)),
            ..self
        })
    }

    /// Why `sell` was refused, in the order the checks run: ownership, then
    /// the price, then the asset record.
    pub open spec fn sell_err(self, sender: u64, id: u64, price: u64, e: Error) -> bool {
        if !self.owner_is(id, sender) {
            e == Error::NotKittyOwner
        } else if price == 0 {
            e == Error::InvalidSellPrice
        } else {
            !self.kitties.contains_key(id) && e == Error::NoSuchKittyIndex
        }
    }

    /// `buy` is owed success exactly when the kitty exists, has an owner, is
    /// listed, and the buyer can pay the seller its price.
    pub open spec fn can_buy(self, buyer: u64, id: u64) -> bool {
        &&& self.kitties.contains_key(id)
        &&& self.owners.contains_key(id)
        &&& self.kitties[id].is_for_sale
        &&& self.balances.can_transfer(buyer, self.owners[id], self.kitties[id].price)
    }

    /// A successful `buy`: the buyer pays the seller the listed price,
    /// ownership moves to the buyer, the seller's escrow is released exactly
    /// when the seller is the creator, and the listing closes.
    pub open spec fn buy_ok(self, post: PalletModel, buyer: u64, id: u64) -> bool {
        let kitty = self.kitties[id];
        let seller = self.owners[id];
        let paid = self.balances.with_transfer(buyer, seller, kitty.price);
        &&& self.can_buy(buyer, id)
        &&& post == (PalletModel {
            kitties: self.kitties.insert(id, (Kitty { is_for_sale: false, ..kitty })),
            owners: self.owners.insert(id, buyer),
            balances: if kitty.creator == seller {
                paid.with_unreserve(seller, self.reserve_amount)
            } else {
                paid
            },
            events: self.events.push(Event::KittyBought(id, buyer)),
            ..self
        })
    }

    /// One step of the registry: the request `op` was made against `self`,
    /// leaving `post`. A successful `create` or `breed` issues the returned
    /// index as `issued`; any other outcome — including every failure, which
    /// leaves the state untouched — issues nothing.
    pub open spec fn step(self, op: Op, post: PalletModel, issued: Option<u64>) -> bool {
        match op {
            Op::Create { sender, dna } => match issued {
                Some(id) => self.create_ok(post, sender, dna, id),
                None => post == self,
            },
            Op::Breed { sender, id1, id2, selector } => match issued {
                Some(id) => self.breed_ok(post, sender, id1, id2, selector, id),
                None => post == self,
            },
            Op::Transfer { sender, to, id } => issued is None && (self.transfer_ok(
                post,
                sender,
                to,
                id,
            ) || post == self),
            Op::Sell { sender, id, price } => issued is None && (self.sell_ok(
                post,
                sender,
                id,
                price,
            ) || post == self),
            Op::Buy { buyer, id } => issued is None && (self.buy_ok(post, buyer, id) || post
                == self),
            Op::Deposit { who, amount } => issued is None && post == (PalletModel {
                balances: self.balances.with_deposit(who, amount),
                ..self
            }),
        }
    }

    /// Why `buy` was refused, in the order the checks run: the asset record,
    /// the ownership record, the listing, then the payment.
    pub open spec fn buy_err(self, buyer: u64, id: u64, e: Error) -> bool {
        if !self.kitties.contains_key(id) {
            e == Error::NoSuchKittyIndex
        } else if !self.owners.contains_key(id) {
            e == Error::NoSuchOwner
        } else if !self.kitties[id].is_for_sale {
            e == Error::KittyNotForSale
        } else {
            !self.balances.can_transfer(buyer, self.owners[id], self.kitties[id].price) && e == (
            if self.balances.free_of(buyer) < self.kitties[id].price {
                Error::InsufficientBalance
            } else {
                Error::BalanceOverflow
            })
        }
    }
}

} // verus!
