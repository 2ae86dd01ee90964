//! The genetic mixer's formula on exact values, identifier uniqueness,
//! escrow bookkeeping, atomicity of failed operations, and the remaining
//! error cases.

use kitties::errors::Error;
use kitties::genetics::mix;
use kitties::registry::{Config, Pallet};

fn new_pallet() -> Pallet {
    Pallet::new(Config { reserved_balance_when_create: 10 })
}

#[test]
fn mix_multiplexes_each_bit() {
    let selector = [0xF0u8; 16];
    let parent1 = [0xAAu8; 16];
    let parent2 = [0x55u8; 16];
    // per byte: (0xF0 & 0xAA) | (0x0F & 0x55) = 0xA0 | 0x05
    assert_eq!(mix(&selector, &parent1, &parent2), [0xA5u8; 16]);
}

#[test]
fn mix_selector_extremes_copy_one_parent() {
    let mut parent1 = [0u8; 16];
    let mut parent2 = [0u8; 16];
    let mut i: u8 = 0;
    while (i as usize) < 16 {
        parent1[i as usize] = i;
        parent2[i as usize] = 0xFF - i;
        i += 1;
    }
    assert_eq!(mix(&[0xFFu8; 16], &parent1, &parent2), parent1);
    assert_eq!(mix(&[0x00u8; 16], &parent1, &parent2), parent2);
}

#[test]
fn breed_stores_the_mixed_dna() {
    let mut pallet = new_pallet();
    pallet.deposit_creating(1, 100);
    let dna1 = [0x12u8; 16];
    let dna2 = [0x34u8; 16];
    let selector = [0x0Fu8; 16];
    let _ = pallet.create(1, dna1);
    let _ = pallet.create(1, dna2);
    assert_eq!(pallet.breed(1, 1, 2, selector), Ok(3));
    let child = pallet.kitties(3).unwrap();
    assert_eq!(child.dna, mix(&selector, &dna1, &dna2));
    // per byte: (0x0F & 0x12) | (0xF0 & 0x34) = 0x02 | 0x30
    assert_eq!(child.dna, [0x32u8; 16]);
}

#[test]
fn identifiers_increase_across_create_and_breed() {
    let mut pallet = new_pallet();
    pallet.deposit_creating(1, 100);
    assert_eq!(pallet.create(1, [1u8; 16]), Ok(1));
    assert_eq!(pallet.create(1, [2u8; 16]), Ok(2));
    assert_eq!(pallet.breed(1, 1, 2, [3u8; 16]), Ok(3));
    assert_eq!(pallet.create(1, [4u8; 16]), Ok(4));
    assert_eq!(pallet.current_kitty_index(), 4);
}

#[test]
fn repeated_breeding_leaves_parents_unaltered() {
    let mut pallet = new_pallet();
    pallet.deposit_creating(1, 100);
    let dna1 = [0x01u8; 16];
    let dna2 = [0x02u8; 16];
    let _ = pallet.create(1, dna1);
    let _ = pallet.create(1, dna2);
    assert_eq!(pallet.breed(1, 1, 2, [0u8; 16]), Ok(3));
    assert_eq!(pallet.breed(1, 1, 2, [0u8; 16]), Ok(4));
    assert_eq!(pallet.breed(1, 1, 2, [0u8; 16]), Ok(5));
    assert_eq!(pallet.current_kitty_index(), 5);
    let parent1 = pallet.kitties(1).unwrap();
    let parent2 = pallet.kitties(2).unwrap();
    assert_eq!(parent1.dna, dna1);
    assert_eq!(parent2.dna, dna2);
    assert_eq!(pallet.owner(1), Some(1));
    assert_eq!(pallet.owner(2), Some(1));
}

#[test]
fn breeding_does_not_require_owning_the_parents() {
    let mut pallet = new_pallet();
    pallet.deposit_creating(1, 100);
    pallet.deposit_creating(2, 100);
    let _ = pallet.create(1, [1u8; 16]);
    let _ = pallet.create(1, [2u8; 16]);
    // account 2 owns neither parent but breeds from them
    assert_eq!(pallet.breed(2, 1, 2, [0u8; 16]), Ok(3));
    assert_eq!(pallet.owner(3), Some(2));
    assert_eq!(pallet.free_balance(2), 90);
}

#[test]
fn create_reserves_and_first_transfer_releases() {
    let mut pallet = new_pallet();
    pallet.deposit_creating(1, 100);
    let _ = pallet.create(1, [0u8; 16]);
    assert_eq!(pallet.free_balance(1), 90);
    assert_eq!(pallet.reserved_balance(1), 10);

    // first hop away from the creator releases the escrow
    assert!(pallet.transfer(1, 2, 1).is_ok());
    assert_eq!(pallet.free_balance(1), 100);
    assert_eq!(pallet.reserved_balance(1), 0);

    // a later hop between other owners has no balance effect
    assert!(pallet.transfer(2, 3, 1).is_ok());
    assert_eq!(pallet.free_balance(1), 100);
    assert_eq!(pallet.reserved_balance(1), 0);
    assert_eq!(pallet.free_balance(2), 0);
    assert_eq!(pallet.reserved_balance(2), 0);
}

#[test]
fn sell_update_keeps_listing_at_new_price() {
    let mut pallet = new_pallet();
    pallet.deposit_creating(1, 100);
    let _ = pallet.create(1, [0u8; 16]);
    assert!(pallet.sell(1, 1, 10).is_ok());
    assert!(pallet.sell(1, 1, 20).is_ok());
    let kitty = pallet.kitties(1).unwrap();
    assert!(kitty.is_for_sale);
    assert_eq!(kitty.price, 20);
}

#[test]
fn failed_sell_leaves_listing_untouched() {
    let mut pallet = new_pallet();
    pallet.deposit_creating(1, 100);
    let _ = pallet.create(1, [0u8; 16]);
    let _ = pallet.sell(1, 1, 10);
    assert_eq!(pallet.sell(1, 1, 0), Err(Error::InvalidSellPrice));
    let kitty = pallet.kitties(1).unwrap();
    assert!(kitty.is_for_sale);
    assert_eq!(kitty.price, 10);
}

#[test]
fn failed_buy_changes_nothing() {
    let mut pallet = new_pallet();
    pallet.deposit_creating(1, 100);
    pallet.deposit_creating(2, 5);
    let _ = pallet.create(1, [0u8; 16]);
    let _ = pallet.sell(1, 1, 10);
    // the buyer cannot cover the price
    assert_eq!(pallet.buy(2, 1), Err(Error::InsufficientBalance));
    assert_eq!(pallet.owner(1), Some(1));
    assert_eq!(pallet.free_balance(1), 90);
    assert_eq!(pallet.free_balance(2), 5);
    let kitty = pallet.kitties(1).unwrap();
    assert!(kitty.is_for_sale);
    assert_eq!(kitty.price, 10);
}

#[test]
fn buy_refused_when_paying_the_seller_would_overflow() {
    let mut pallet = new_pallet();
    pallet.deposit_creating(1, u64::MAX);
    pallet.deposit_creating(2, 100);
    let _ = pallet.create(1, [0u8; 16]);
    let _ = pallet.sell(1, 1, 10);
    // the seller's account has no room left for the payment
    assert_eq!(pallet.buy(2, 1), Err(Error::BalanceOverflow));
    assert_eq!(pallet.owner(1), Some(1));
    assert_eq!(pallet.free_balance(2), 100);
}

#[test]
fn deposit_saturates_at_the_account_headroom() {
    let mut pallet = new_pallet();
    pallet.deposit_creating(1, u64::MAX);
    pallet.deposit_creating(1, 5);
    assert_eq!(pallet.free_balance(1), u64::MAX);
}

#[test]
fn transfer_to_self_releases_creator_escrow() {
    // the release condition is "the giving account is the creator", so a
    // creator transferring to themselves frees their own escrow early
    let mut pallet = new_pallet();
    pallet.deposit_creating(1, 100);
    let _ = pallet.create(1, [0u8; 16]);
    assert!(pallet.transfer(1, 1, 1).is_ok());
    assert_eq!(pallet.owner(1), Some(1));
    assert_eq!(pallet.free_balance(1), 100);
    assert_eq!(pallet.reserved_balance(1), 0);
}

#[test]
fn buy_back_then_giving_away_again_releases_nothing_more() {
    let mut pallet = new_pallet();
    pallet.deposit_creating(1, 100);
    pallet.deposit_creating(2, 100);
    let _ = pallet.create(1, [0u8; 16]);
    let _ = pallet.sell(1, 1, 10);
    // first sale away from the creator releases the escrow: 90 + 10 + 10
    assert!(pallet.buy(2, 1).is_ok());
    assert_eq!(pallet.free_balance(1), 110);
    // the creator buys the kitty back
    let _ = pallet.sell(2, 1, 10);
    assert!(pallet.buy(1, 1).is_ok());
    assert_eq!(pallet.free_balance(1), 100);
    assert_eq!(pallet.reserved_balance(1), 0);
    // giving it away again finds nothing reserved to release
    assert!(pallet.transfer(1, 3, 1).is_ok());
    assert_eq!(pallet.free_balance(1), 100);
    assert_eq!(pallet.reserved_balance(1), 0);
}

#[test]
fn no_event_before_the_first_successful_operation() {
    let mut pallet = new_pallet();
    assert_eq!(pallet.last_event(), None);
    let _ = pallet.create(1, [0u8; 16]);
    // the failed create records nothing
    assert_eq!(pallet.last_event(), None);
}
