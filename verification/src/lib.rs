//! A verified registry and marketplace for unique, ownable, breedable
//! digital assets ("kitties").
//!
//! The crate is a deterministic state-transition engine: a [`registry::Pallet`]
//! owns an identifier allocator, the asset store, the ownership index, an
//! embedded currency ledger with reservable balances, and an event log.
//! The five public operations — create, transfer, breed, sell, buy — are
//! verified against exact contracts over a mathematical model of that state:
//! every operation either commits all of its effects or returns an error and
//! leaves the state untouched.
//!
//! Randomness is an external oracle: the host supplies the random bytes that
//! seed a new asset's genetic code or select, bit by bit, which parent
//! contributes each bit of a bred child's code (see [`genetics::mix`]).

pub mod errors;
pub mod events;
pub mod genetics;
pub mod kitty;
pub mod laws;
pub mod ledger;
pub mod model;
pub mod registry;
