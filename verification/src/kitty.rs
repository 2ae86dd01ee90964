//! The asset record.

use vstd::prelude::*;

verus! {

/// One registered asset.
///
/// `index`, `dna` and `creator` are assigned once at creation and never
/// change afterwards; `price` and `is_for_sale` mutate as the kitty is
/// listed and sold. `price` is meaningful only while `is_for_sale` is true,
/// and a listed kitty always has a positive price.
#[derive(Clone, Copy)]
pub struct Kitty {
    /// The unique identifier this kitty was registered under.
    pub index: u64,
    /// The fixed-length genetic code; opaque except to breeding.
    pub dna: [u8; 16],
    /// The listing price; `0` while no listing is active.
    pub price: u64,
    /// Whether the kitty is currently listed for sale.
    pub is_for_sale: bool,
    /// The account that created this kitty; decides escrow release.
    pub creator: u64,
}

impl Kitty {
    /// A freshly registered kitty: not for sale, price zero, created and
    /// indexed as given.
    pub open spec fn is_new(self, index: u64, creator: u64) -> bool {
        &&& self.index == index
        &&& self.price == 0
        &&& !self.is_for_sale
        &&& self.creator == creator
    }
}

} // verus!
