use pallet_kitties::pallet::{Config, Error, Event, GenesisConfig, Pallet};

const SELLER: u64 = 100;
const BUYER: u64 = 200;

fn market(buyer_funds: u64, seller_funds: u64, existential_deposit: u64) -> Pallet {
    let mut balances = vec![(BUYER, buyer_funds)];
    if seller_funds > 0 {
        balances.push((SELLER, seller_funds));
    }
    let mut kitties = GenesisConfig { balances }.build(Config { difficulty: 2, existential_deposit });
    assert_eq!(kitties.create(SELLER), Ok(()));
    kitties
}

#[test]
fn buy_at_listed_price_settles() {
    let mut kitties = market(1000, 0, 1);
    assert_eq!(kitties.set_price(SELLER, 0, Some(500)), Ok(()));

    // one below the price fails and changes nothing
    let events = kitties.events().len();
    assert_eq!(kitties.buy(BUYER, SELLER, 0, 499), Err(Error::PriceTooLow));
    assert_eq!(kitties.kitty_prices(0), Some(500));
    assert_eq!(kitties.tokens(0).unwrap().owner, SELLER);
    assert_eq!(kitties.free_balance(BUYER), 1000);
    assert_eq!(kitties.events().len(), events);

    assert_eq!(kitties.buy(BUYER, SELLER, 0, 500), Ok(()));
    assert_eq!(kitties.kitty_prices(0), None);
    assert_eq!(kitties.tokens(0).unwrap().owner, BUYER);
    assert_eq!(kitties.free_balance(BUYER), 500);
    assert_eq!(kitties.free_balance(SELLER), 500);
    assert_eq!(kitties.events().last(), Some(&Event::KittySold(SELLER, BUYER, 0, 500)));
}

#[test]
fn buy_below_max_pays_listed_price() {
    let mut kitties = market(1000, 30, 1);
    assert_eq!(kitties.set_price(SELLER, 0, Some(120)), Ok(()));
    assert_eq!(kitties.buy(BUYER, SELLER, 0, 900), Ok(()));
    assert_eq!(kitties.free_balance(BUYER), 880);
    assert_eq!(kitties.free_balance(SELLER), 150);
}

#[test]
fn buy_from_self_is_refused() {
    let mut kitties = market(1000, 0, 1);
    assert_eq!(kitties.set_price(SELLER, 0, Some(5)), Ok(()));
    assert_eq!(kitties.buy(SELLER, SELLER, 0, 5), Err(Error::BuyFromSelf));
}

#[test]
fn buy_unlisted_is_refused() {
    let mut kitties = market(1000, 0, 1);
    assert_eq!(kitties.buy(BUYER, SELLER, 0, 5), Err(Error::NotForSale));
    assert_eq!(kitties.buy(BUYER, SELLER, 7, 5), Err(Error::NotForSale));
}

#[test]
fn buy_from_wrong_seller_is_refused() {
    let mut kitties = market(1000, 0, 1);
    assert_eq!(kitties.set_price(SELLER, 0, Some(5)), Ok(()));
    assert_eq!(kitties.buy(BUYER, 300, 0, 5), Err(Error::NoPermission));
    assert_eq!(kitties.kitty_prices(0), Some(5));
}

#[test]
fn buy_without_funds_is_refused() {
    let mut kitties = market(10, 0, 1);
    assert_eq!(kitties.set_price(SELLER, 0, Some(50)), Ok(()));
    assert_eq!(kitties.buy(BUYER, SELLER, 0, 50), Err(Error::InsufficientBalance));
    assert_eq!(kitties.tokens(0).unwrap().owner, SELLER);
    assert_eq!(kitties.kitty_prices(0), Some(50));
}

#[test]
fn buy_keeps_buyer_alive() {
    let mut kitties = market(50, 0, 1);
    assert_eq!(kitties.set_price(SELLER, 0, Some(50)), Ok(()));
    assert_eq!(kitties.buy(BUYER, SELLER, 0, 50), Err(Error::KeepAlive));
    assert_eq!(kitties.tokens(0).unwrap().owner, SELLER);
    assert_eq!(kitties.free_balance(BUYER), 50);
    assert_eq!(kitties.kitty_prices(0), Some(50));
}

#[test]
fn buy_paying_seller_below_existential_deposit_is_refused() {
    let mut kitties = market(1000, 0, 10);
    assert_eq!(kitties.set_price(SELLER, 0, Some(5)), Ok(()));
    assert_eq!(kitties.buy(BUYER, SELLER, 0, 5), Err(Error::ExistentialDeposit));
    assert_eq!(kitties.free_balance(SELLER), 0);
}

#[test]
fn buy_overflowing_seller_balance_is_refused() {
    let mut kitties = market(1000, u64::MAX, 1);
    assert_eq!(kitties.set_price(SELLER, 0, Some(5)), Ok(()));
    assert_eq!(kitties.buy(BUYER, SELLER, 0, 5), Err(Error::ArithmeticOverflow));
    assert_eq!(kitties.free_balance(BUYER), 1000);
}

#[test]
fn buy_at_zero_price_moves_no_funds() {
    let mut kitties = market(0, 0, 1);
    assert_eq!(kitties.set_price(SELLER, 0, Some(0)), Ok(()));
    assert_eq!(kitties.buy(BUYER, SELLER, 0, 0), Ok(()));
    assert_eq!(kitties.tokens(0).unwrap().owner, BUYER);
    assert_eq!(kitties.free_balance(BUYER), 0);
}

#[test]
fn self_transfer_keeps_listing_and_emits_nothing() {
    let mut kitties = market(1000, 0, 1);
    assert_eq!(kitties.set_price(SELLER, 0, Some(77)), Ok(()));
    let events = kitties.events().len();
    assert_eq!(kitties.transfer(SELLER, SELLER, 0), Ok(()));
    assert_eq!(kitties.kitty_prices(0), Some(77));
    assert_eq!(kitties.events().len(), events);
}

#[test]
fn genesis_later_balance_overrides_earlier() {
    let kitties = GenesisConfig { balances: vec![(1, 10), (2, 20), (1, 30)] }
        .build(Config { difficulty: 1, existential_deposit: 1 });
    assert_eq!(kitties.free_balance(1), 30);
    assert_eq!(kitties.free_balance(2), 20);
    assert_eq!(kitties.free_balance(3), 0);
    assert_eq!(kitties.auto_breed_nonce(), 0);
    assert_eq!(kitties.tokens(0), None);
}
