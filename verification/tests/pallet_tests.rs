//! The registry exercised through its public operations: creation,
//! transfer, breeding, listing and purchase, with their error cases.

use kitties::errors::Error;
use kitties::events::Event;
use kitties::registry::{Config, Pallet};

// The host would draw these from its randomness oracle; tests fix them.
const DNA_A: [u8; 16] = [0xAA; 16];
const DNA_B: [u8; 16] = [0x55; 16];
const SELECTOR: [u8; 16] = [0xF0; 16];

fn new_pallet() -> Pallet {
    Pallet::new(Config { reserved_balance_when_create: 10 })
}

#[test]
fn create_kitty_works() {
    let mut pallet = new_pallet();
    pallet.deposit_creating(1, 100);
    assert!(pallet.create(1, DNA_A).is_ok());
    assert_eq!(pallet.current_kitty_index(), 1);

    // check the kitty status
    let kitty = pallet.kitties(1);
    assert!(kitty.is_some());
    let kitty = kitty.unwrap();
    assert_eq!(kitty.index, 1);
    assert_eq!(kitty.price, 0);
    assert_eq!(kitty.creator, 1);

    // check the kitty owner
    let owner = pallet.owner(1);
    assert!(owner.is_some());
    assert_eq!(owner.unwrap(), 1);

    // check balance of the creator
    // only 90 is left "free", as 10 was reserved when creating the kitty
    assert_eq!(pallet.free_balance(1), 90);

    // check event
    assert_eq!(pallet.last_event(), Some(Event::KittyCreated(1, 1)));
}

#[test]
fn create_kitty_fails_with_no_initial_balance() {
    let mut pallet = new_pallet();
    let result = pallet.create(1, DNA_A);
    assert_eq!(result, Err(Error::InsufficientBalance));
}

#[test]
fn create_kitty_fails_with_index_overflow() {
    let mut pallet = new_pallet();
    pallet.deposit_creating(1, 100);
    pallet.set_kitty_index(u64::MAX);
    assert_eq!(pallet.create(1, DNA_A), Err(Error::KittyIndexOverflow));
    // no state change
    assert_eq!(pallet.current_kitty_index(), u64::MAX);
    assert_eq!(pallet.free_balance(1), 100);
}

#[test]
fn transfer_kitty_works() {
    let mut pallet = new_pallet();
    let sender = 1;
    let receiver = 2;
    pallet.deposit_creating(sender, 100);
    let _ = pallet.create(sender, DNA_A);

    assert!(pallet.transfer(sender, receiver, 1).is_ok());

    // kitty creator should not be changed
    let kitty = pallet.kitties(1);
    assert!(kitty.is_some());
    assert_eq!(kitty.unwrap().creator, sender);

    // check the kitty owner again
    let owner = pallet.owner(1);
    assert!(owner.is_some());
    assert_eq!(owner.unwrap(), receiver);

    // check event
    assert_eq!(
        pallet.last_event(),
        Some(Event::KittyTransferred(sender, receiver, 1))
    );
}

#[test]
fn transfer_kitty_fails_with_wrong_owner() {
    let mut pallet = new_pallet();
    let sender = 1;
    let receiver = 2;
    pallet.deposit_creating(sender, 100);
    let _ = pallet.create(sender, DNA_A);
    let non_exist_index = 3;
    assert_eq!(
        pallet.transfer(sender, receiver, non_exist_index),
        Err(Error::NotKittyOwner)
    );
}

#[test]
fn breed_kitty_works() {
    let mut pallet = new_pallet();
    let sender = 1;
    pallet.deposit_creating(sender, 100);
    // create two kitties
    let _ = pallet.create(sender, DNA_A);
    let _ = pallet.create(sender, DNA_B);

    assert!(pallet.breed(sender, 1, 2, SELECTOR).is_ok());
    // now there are 3 kitties
    assert_eq!(pallet.current_kitty_index(), 3);

    // double check the owner
    let owner = pallet.owner(3);
    assert!(owner.is_some());
    assert_eq!(owner.unwrap(), sender);

    // check event
    assert_eq!(pallet.last_event(), Some(Event::KittyBred(sender, 3)));
}

#[test]
fn breed_kitty_fails_with_same_parent_index() {
    let mut pallet = new_pallet();
    let sender = 1;
    pallet.deposit_creating(sender, 100);
    // create two kitties
    let _ = pallet.create(sender, DNA_A);
    let _ = pallet.create(sender, DNA_B);

    assert_eq!(
        pallet.breed(sender, 2, 2, SELECTOR),
        Err(Error::SameParentIndex)
    );
}

#[test]
fn breed_kitty_fails_with_no_such_kitty_index() {
    let mut pallet = new_pallet();
    let sender = 1;
    pallet.deposit_creating(sender, 100);
    // create two kitties
    let _ = pallet.create(sender, DNA_A);
    let _ = pallet.create(sender, DNA_B);

    assert_eq!(
        pallet.breed(sender, 2, 3, SELECTOR),
        Err(Error::NoSuchKittyIndex)
    );
}

#[test]
fn sell_kitty_works() {
    let mut pallet = new_pallet();
    let sender = 1;
    pallet.deposit_creating(sender, 100);
    let _ = pallet.create(sender, DNA_A);

    assert!(pallet.sell(sender, 1, 10).is_ok());

    // check the kitty status
    let kitty = pallet.kitties(1);
    assert!(kitty.is_some());
    let kitty = kitty.unwrap();
    assert_eq!(kitty.index, 1);
    assert_eq!(kitty.price, 10);
    assert!(kitty.is_for_sale);

    // check event
    assert_eq!(pallet.last_event(), Some(Event::KittyOnSale(1, 10)));
}

#[test]
fn sell_kitty_fails_with_invalid_sell_price() {
    let mut pallet = new_pallet();
    let sender = 1;
    pallet.deposit_creating(sender, 100);
    let _ = pallet.create(sender, DNA_A);

    // a sell price of 0 is refused
    assert_eq!(pallet.sell(sender, 1, 0), Err(Error::InvalidSellPrice));
}

#[test]
fn sell_kitty_fails_with_wrong_owner() {
    let mut pallet = new_pallet();
    let sender = 1;
    pallet.deposit_creating(sender, 100);
    let _ = pallet.create(sender, DNA_A);

    assert_eq!(pallet.sell(sender, 2, 10), Err(Error::NotKittyOwner));
}

#[test]
fn buy_kitty_works() {
    let mut pallet = new_pallet();
    let seller = 1;
    let buyer = 2;

    pallet.deposit_creating(seller, 100);
    pallet.deposit_creating(buyer, 100);

    let _ = pallet.create(seller, DNA_A);
    assert_eq!(pallet.free_balance(seller), 90);

    // put the kitty on sale
    let _ = pallet.sell(seller, 1, 10);

    // buy it
    assert!(pallet.buy(buyer, 1).is_ok());

    // check the kitty status
    let kitty = pallet.kitties(1);
    assert!(kitty.is_some());
    let kitty = kitty.unwrap();
    assert_eq!(kitty.index, 1);
    assert_eq!(kitty.price, 10);
    assert!(!kitty.is_for_sale); // after it's bought it should be false

    // check the kitty owner
    let owner = pallet.owner(1);
    assert!(owner.is_some());
    assert_eq!(owner.unwrap(), buyer);

    // check deposit
    assert_eq!(pallet.free_balance(seller), 110); // 90 + 10 + 10
    assert_eq!(pallet.free_balance(buyer), 90);

    // check event
    assert_eq!(pallet.last_event(), Some(Event::KittyBought(1, buyer)));
}

#[test]
fn buy_kitty_fails_if_kitty_is_not_for_sale() {
    let mut pallet = new_pallet();
    let seller = 1;
    let buyer = 2;

    pallet.deposit_creating(seller, 100);
    pallet.deposit_creating(buyer, 100);

    let _ = pallet.create(seller, DNA_A);
    assert_eq!(pallet.free_balance(seller), 90);

    // buy it without the seller first putting it up for sale
    assert_eq!(pallet.buy(buyer, 1), Err(Error::KittyNotForSale));
}

#[test]
fn buy_kitty_fails_if_kitty_not_exist() {
    let mut pallet = new_pallet();
    let seller = 1;
    let buyer = 2;

    pallet.deposit_creating(seller, 100);
    pallet.deposit_creating(buyer, 100);

    let _ = pallet.create(seller, DNA_A);
    assert_eq!(pallet.free_balance(seller), 90);

    // try to buy a non-existent kitty
    assert_eq!(pallet.buy(buyer, 3), Err(Error::NoSuchKittyIndex));
}

#[test]
fn buy_kitty_fails_if_no_such_owner() {
    let mut pallet = new_pallet();
    let seller = 1;
    let buyer = 2;

    pallet.deposit_creating(seller, 100);
    pallet.deposit_creating(buyer, 100);

    let _ = pallet.create(seller, DNA_A);
    assert_eq!(pallet.free_balance(seller), 90);

    // intentionally remove the owner of the created kitty
    pallet.clear_owner();

    assert_eq!(pallet.buy(buyer, 1), Err(Error::NoSuchOwner));
}

#[test]
fn buy_kitty_works_with_chain_transfer() {
    let mut pallet = new_pallet();
    let seller = 1;
    let buyer1 = 2;
    let buyer2 = 3;

    pallet.deposit_creating(seller, 100);
    pallet.deposit_creating(buyer1, 100);
    pallet.deposit_creating(buyer2, 100);

    let _ = pallet.create(seller, DNA_A);
    assert_eq!(pallet.free_balance(seller), 90);

    // seller puts the kitty on sale
    let _ = pallet.sell(seller, 1, 10);

    // buyer1 buys it
    assert!(pallet.buy(buyer1, 1).is_ok());
    assert_eq!(pallet.free_balance(seller), 110);
    assert_eq!(pallet.free_balance(buyer1), 90);

    // buyer1 puts it on sale again
    let _ = pallet.sell(buyer1, 1, 20);

    // buyer2 buys it
    assert!(pallet.buy(buyer2, 1).is_ok());

    // check balances:
    // seller's balance should be unchanged (unreserve only done once)
    assert_eq!(pallet.free_balance(seller), 110);
    // buyer1's balance: 100 - 10 + 20
    assert_eq!(pallet.free_balance(buyer1), 110);
    // buyer2's balance: 100 - 20
    assert_eq!(pallet.free_balance(buyer2), 80);
}
