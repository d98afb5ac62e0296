use pallet_kitties::genome::{Kitty, KittyGender};
use pallet_kitties::pallet::{Config, Error, Event, GenesisConfig, Pallet};

fn new_test_ext() -> Pallet {
    GenesisConfig { balances: vec![(200, 500)] }.build(Config { difficulty: 2, existential_deposit: 1 })
}

#[test]
fn can_create() {
    let mut kitties = new_test_ext();
    assert_eq!(kitties.create(100), Ok(()));

    let kitty = Kitty([59, 250, 138, 82, 209, 39, 141, 109, 163, 238, 183, 145, 235, 168, 18, 122]);

    assert_eq!(kitties.kitties(&100, 0), Some(kitty.clone()));
    assert_eq!(kitties.tokens(0).unwrap().owner, 100);

    assert_eq!(kitties.events().last(), Some(&Event::KittyCreated(100, 0, kitty)));
}

#[test]
fn gender() {
    assert_eq!(Kitty([0; 16]).gender(), KittyGender::Male);
    assert_eq!(Kitty([1, 0, 0, 0, 0, 0, 0, 0, 0, 0, 0, 0, 0, 0, 0, 0]).gender(), KittyGender::Female);
}

#[test]
fn can_breed() {
    let mut kitties = new_test_ext();
    assert_eq!(kitties.create(100), Ok(()));

    // a new seed makes the second kitty of the other gender
    kitties.set_random_seed([2; 32]);

    assert_eq!(kitties.create(100), Ok(()));

    let events_before = kitties.events().len();
    assert_eq!(kitties.breed(100, 0, 11), Err(Error::InvalidKittyId));
    assert_eq!(kitties.breed(100, 0, 0), Err(Error::SameGender));
    assert_eq!(kitties.breed(101, 0, 1), Err(Error::InvalidKittyId));
    assert_eq!(kitties.events().len(), events_before);
    assert_eq!(kitties.tokens(2), None);

    assert_eq!(kitties.breed(100, 0, 1), Ok(()));

    let kitty = Kitty([187, 250, 235, 118, 211, 247, 237, 253, 187, 239, 191, 185, 239, 171, 211, 122]);

    assert_eq!(kitties.kitties(&100, 2), Some(kitty.clone()));
    assert_eq!(kitties.tokens(2).unwrap().owner, 100);

    assert_eq!(kitties.events().last(), Some(&Event::KittyBred(100u64, 2u32, kitty)));
}

#[test]
fn can_transfer() {
    let mut kitties = new_test_ext();
    assert_eq!(kitties.create(100), Ok(()));
    assert_eq!(kitties.set_price(100, 0, Some(20)), Ok(()));

    // only the owner may transfer the kitty; a refused call changes nothing
    let events = kitties.events().len();
    assert_eq!(kitties.transfer(101, 102, 0), Err(Error::NoPermission));
    assert_eq!(kitties.tokens(0).unwrap().owner, 100);
    assert_eq!(kitties.kitty_prices(0), Some(20));
    assert_eq!(kitties.events().len(), events);

    assert_eq!(kitties.transfer(100, 103, 0), Ok(()));

    // the previous owner can no longer transfer it
    let events = kitties.events().len();
    assert_eq!(kitties.transfer(100, 103, 0), Err(Error::NoPermission));
    assert_eq!(kitties.events().len(), events);
    // the transfer cleared the listing
    assert_eq!(kitties.kitty_prices(0), None);

    assert_eq!(kitties.tokens(0).unwrap().owner, 103);

    assert_eq!(kitties.events().last(), Some(&Event::KittyTransferred(100, 103, 0)));
}

#[test]
fn handle_self_transfer() {
    let mut kitties = new_test_ext();
    assert_eq!(kitties.create(100), Ok(()));

    kitties.reset_events();

    assert_eq!(kitties.transfer(100, 100, 10), Err(Error::TokenNotFound));
    assert_eq!(kitties.tokens(0).unwrap().owner, 100);
    assert_eq!(kitties.tokens(10), None);
    assert_eq!(kitties.events().len(), 0);

    // a transfer to oneself does nothing
    assert_eq!(kitties.transfer(100, 100, 0), Ok(()));

    assert_eq!(kitties.tokens(0).unwrap().owner, 100);

    assert_eq!(kitties.events().len(), 0);
}

#[test]
fn can_set_price() {
    let mut kitties = new_test_ext();
    assert_eq!(kitties.create(100), Ok(()));

    let events = kitties.events().len();
    assert_eq!(kitties.set_price(101, 0, Some(15)), Err(Error::NotOwner));
    assert_eq!(kitties.kitty_prices(0), None);
    assert_eq!(kitties.events().len(), events);

    assert_eq!(kitties.set_price(100, 0, Some(20)), Ok(()));

    assert_eq!(kitties.events().last(), Some(&Event::KittyPriceUpdated(100, 0, Some(20))));

    assert_eq!(kitties.kitty_prices(0), Some(20));

    assert_eq!(kitties.set_price(100, 0, None), Ok(()));

    assert_eq!(kitties.kitty_prices(0), None);

    assert_eq!(kitties.events().last(), Some(&Event::KittyPriceUpdated(100, 0, None)));
}
