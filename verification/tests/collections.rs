use kitties::currency::{Currency, InsufficientFunds, Ledger};
use kitties::genesis::GenesisConfig;
use kitties::index::OwnershipIndex;
use kitties::owned::{owned_len, position, remove, try_add, OwnedList};
use kitties::store::AssetStore;
use kitties::{ChainContext, Config, Error, Gender, Kitty, KittyId};

fn id(first: u8) -> KittyId {
    let mut id = [0u8; 16];
    id[0] = first;
    id
}

#[test]
fn list_grows_at_the_end_and_shrinks_by_swapping() {
    let mut list = OwnedList::new();
    assert_eq!(owned_len(&list), 0);
    assert_eq!(position(&list, &id(1)), None);
    assert_eq!(try_add(&mut list, id(1), 0), Err(Error::TooManyOwned));
    assert_eq!(owned_len(&list), 0);
    for n in 1..=5 {
        assert_eq!(try_add(&mut list, id(n), 5), Ok(()));
        assert_eq!(owned_len(&list), n as usize);
    }
    assert_eq!(try_add(&mut list, id(6), 5), Err(Error::TooManyOwned));
    assert_eq!(list.to_vec(), vec![id(1), id(2), id(3), id(4), id(5)]);
    assert_eq!(position(&list, &id(1)), Some(0));
    assert_eq!(position(&list, &id(4)), Some(3));
    assert_eq!(position(&list, &id(6)), None);

    assert_eq!(remove(&mut list, &id(2)), Ok(()));
    assert_eq!(list.to_vec(), vec![id(1), id(5), id(3), id(4)]);
    assert_eq!(remove(&mut list, &id(2)), Err(Error::NoKitty));
    assert_eq!(list.to_vec(), vec![id(1), id(5), id(3), id(4)]);
    // Taking out the last entry moves nothing.
    assert_eq!(remove(&mut list, &id(4)), Ok(()));
    assert_eq!(list.to_vec(), vec![id(1), id(5), id(3)]);
    assert_eq!(position(&list, &id(5)), Some(1));
}

#[test]
fn index_appends_in_order_up_to_the_cap() {
    let mut index = OwnershipIndex::new();
    assert_eq!(index.list(1), Vec::<KittyId>::new());
    assert_eq!(index.count(1), 0);
    assert_eq!(index.try_add(1, id(1), 2), Ok(()));
    assert_eq!(index.try_add(1, id(2), 2), Ok(()));
    assert_eq!(index.try_add(1, id(3), 2), Err(Error::TooManyOwned));
    assert_eq!(index.list(1), vec![id(1), id(2)]);
    assert_eq!(index.count(1), 2);
    assert_eq!(index.try_add(2, id(3), 0), Err(Error::TooManyOwned));
    assert_eq!(index.list(2), Vec::<KittyId>::new());
    assert_eq!(index.try_add(2, id(3), 1), Ok(()));
    assert_eq!(index.list(2), vec![id(3)]);
    assert!(index.holds(1, &id(2)));
    assert!(!index.holds(1, &id(3)));
    assert!(!index.holds(9, &id(3)));
}

#[test]
fn index_removal_moves_the_last_entry_into_the_gap() {
    let mut index = OwnershipIndex::new();
    for n in 1..=4 {
        assert_eq!(index.try_add(1, id(n), 10), Ok(()));
    }
    assert_eq!(index.remove(1, &id(9)), Err(Error::NoKitty));
    assert_eq!(index.remove(2, &id(1)), Err(Error::NoKitty));
    assert_eq!(index.list(1), vec![id(1), id(2), id(3), id(4)]);
    assert_eq!(index.remove(1, &id(1)), Ok(()));
    assert_eq!(index.list(1), vec![id(4), id(2), id(3)]);
    assert_eq!(index.remove(1, &id(3)), Ok(()));
    assert_eq!(index.list(1), vec![id(4), id(2)]);
    assert_eq!(index.remove(1, &id(4)), Ok(()));
    assert_eq!(index.remove(1, &id(2)), Ok(()));
    assert_eq!(index.list(1), Vec::<KittyId>::new());
    assert_eq!(index.remove(1, &id(2)), Err(Error::NoKitty));
}

#[test]
fn store_keeps_kitties_under_their_identifiers() {
    let mut store = AssetStore::new();
    let kitty = Kitty { id: id(1), dna: id(1), price: None, gender: Gender::Male, owner: 3 };
    assert!(!store.contains(&id(1)));
    assert_eq!(store.get(&id(1)), None);
    store.put(id(1), kitty);
    assert!(store.contains(&id(1)));
    assert_eq!(store.get(&id(1)), Some(kitty));
    let mut near = id(1);
    near[15] = 1;
    assert!(!store.contains(&near));
    let repriced = Kitty { price: Some(9), ..kitty };
    store.put(id(1), repriced);
    assert_eq!(store.get(&id(1)), Some(repriced));
    store.put(near, Kitty { id: near, ..kitty });
    assert_eq!(store.get(&id(1)), Some(repriced));
    assert_eq!(store.get(&near).unwrap().id, near);
}

#[test]
fn ledger_keeps_the_payer_alive() {
    let mut ledger = Ledger::new(500);
    assert_eq!(ledger.existential_deposit(), 500);
    assert_eq!(ledger.free_balance(1), 0);
    ledger.set_balance(1, 1_000);
    assert_eq!(ledger.transfer(1, 2, 400), Ok(()));
    assert_eq!(ledger.free_balance(1), 600);
    assert_eq!(ledger.free_balance(2), 400);
    assert_eq!(ledger.transfer(1, 2, 101), Err(InsufficientFunds));
    assert_eq!(ledger.transfer(1, 2, 100), Ok(()));
    assert_eq!(ledger.free_balance(1), 500);
    assert_eq!(ledger.free_balance(2), 500);
    assert_eq!(ledger.transfer(1, 1, 0), Err(InsufficientFunds));
    assert_eq!(ledger.transfer(3, 1, 1), Err(InsufficientFunds));
    ledger.set_balance(4, u128::MAX);
    // The payee's balance must stay representable.
    assert_eq!(ledger.transfer(4, 1, u128::MAX - 499), Err(InsufficientFunds));
    assert_eq!(ledger.free_balance(4), u128::MAX);
    assert_eq!(ledger.free_balance(1), 500);
    assert_eq!(ledger.transfer(4, 1, u128::MAX - 500), Ok(()));
    assert_eq!(ledger.free_balance(4), 500);
    assert_eq!(ledger.free_balance(1), u128::MAX);
}

#[test]
fn genesis_mints_in_order() {
    let ctx = ChainContext { random: [0u8; 32], extrinsic_index: 0, block_number: 0 };
    let genesis = GenesisConfig {
        kitties: vec![
            (1, Some(id(1)), Some(Gender::Male)),
            (2, Some(id(2)), None),
            (1, None, None),
        ],
    };
    let pallet = genesis.build(Config::new(2), Ledger::new(0), &ctx).ok().unwrap();
    let generated = [227, 142, 41, 50, 186, 112, 142, 146, 79, 224, 182, 184, 70, 10, 42, 88];
    assert_eq!(pallet.count_for_kitties(), 3);
    assert_eq!(pallet.kitties_owned(1), vec![id(1), generated]);
    assert_eq!(pallet.kitties_owned(2), vec![id(2)]);
    assert_eq!(pallet.kitties(&id(1)).unwrap().gender, Gender::Male);
    assert_eq!(pallet.kitties(&id(2)).unwrap().gender, Gender::Male);
    assert_eq!(pallet.kitties(&generated).unwrap().gender, Gender::Female);
    assert_eq!(pallet.kitties(&generated).unwrap().price, None);

    let empty = GenesisConfig::default();
    assert!(empty.kitties.is_empty());
    let pallet = empty.build(Config::new(2), Ledger::new(0), &ctx).ok().unwrap();
    assert_eq!(pallet.count_for_kitties(), 0);
}

#[test]
fn genesis_fails_on_a_duplicate_or_a_full_account() {
    let ctx = ChainContext { random: [0u8; 32], extrinsic_index: 0, block_number: 0 };
    let duplicate = GenesisConfig {
        kitties: vec![(1, Some(id(1)), None), (2, Some(id(1)), None), (3, Some(id(3)), None)],
    };
    assert_eq!(duplicate.build(Config::new(2), Ledger::new(0), &ctx).err(), Some(Error::DuplicateKitty));
    let crowded = GenesisConfig {
        kitties: vec![(1, Some(id(1)), None), (1, Some(id(2)), None), (1, Some(id(3)), None)],
    };
    assert_eq!(crowded.build(Config::new(2), Ledger::new(0), &ctx).err(), Some(Error::TooManyOwned));
    assert!(crowded.build(Config::new(3), Ledger::new(0), &ctx).is_ok());
}
