//! The errors that the registry's operations report.
//!
//! Every error aborts the whole operation: the contracts of the operations
//! guarantee that an `Err` result leaves the registry state unchanged.

use vstd::prelude::*;

verus! {

/// Why an operation was rejected.
#[derive(Clone, Copy, Debug, PartialEq, Eq, Structural)]
pub enum Error {
    /// The identifier counter would exceed its representable range.
    KittyIndexOverflow,
    /// The caller is not the current owner of the kitty.
    NotKittyOwner,
    /// Both breeding parents carry the same kitty index.
    SameParentIndex,
    /// No kitty is stored under the given index.
    NoSuchKittyIndex,
    /// A sale price of zero is not a valid listing.
    InvalidSellPrice,
    /// No owner is recorded for the kitty being bought.
    NoSuchOwner,
    /// The kitty is not listed for sale.
    KittyNotForSale,
    /// The account's free balance cannot cover the requested amount.
    InsufficientBalance,
    /// Crediting the receiving account would exceed the representable
    /// balance range.
    BalanceOverflow,
}

} // verus!
