//! The events that successful operations record.
//!
//! One event is appended to the registry's log per successful operation and
//! none for a failed one; the log exists for external observers and has no
//! effect on any other state.

use vstd::prelude::*;

verus! {

/// What a successful operation announces: `(owner, index)` for creation and
/// breeding, `(sender, receiver, index)` for a transfer, `(index, price)`
/// for a listing, `(index, buyer)` for a purchase.
#[derive(Clone, Copy, Debug, PartialEq, Eq, Structural)]
pub enum Event {
    /// A kitty was created: `(owner, kitty_index)`.
    KittyCreated(u64, u64),
    /// A kitty changed hands: `(sender, receiver, kitty_index)`.
    KittyTransferred(u64, u64, u64),
    /// A kitty was bred: `(owner, kitty_index)`.
    KittyBred(u64, u64),
    /// A kitty was listed for sale: `(kitty_index, price)`.
    KittyOnSale(u64, u64),
    /// A kitty was bought: `(kitty_index, new_owner)`.
    KittyBought(u64, u64),
}

} // verus!
