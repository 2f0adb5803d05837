use sage::ids::{Hash32, PublicKeyBytes};
use sage::store::{CoinRec, CoinStateRec, WalletStore};

fn hash(byte: u8) -> Hash32 {
    Hash32::from_bytes(vec![byte; 32]).unwrap()
}

fn key(byte: u8) -> PublicKeyBytes {
    PublicKeyBytes::from_bytes(vec![byte; 48]).unwrap()
}

fn state(parent: u8, puzzle: u8, amount: u64, spent: Option<u32>) -> CoinStateRec {
    CoinStateRec {
        coin: CoinRec {
            parent_coin_info: hash(parent),
            puzzle_hash: hash(puzzle),
            amount,
        },
        created_height: Some(10),
        spent_height: spent,
    }
}

#[test]
fn empty_store_has_nothing() {
    let store = WalletStore::new();
    assert_eq!(store.derivation_count(), 0);
    assert_eq!(store.coin_count(), 0);
    assert!(store.latest_peak().is_none());
    assert!(store.p2_puzzle_hashes().is_empty());
}

#[test]
fn derivations_are_watched_in_order() {
    let mut store = WalletStore::new();
    store.insert_derivation(hash(1), 0, false, key(10));
    store.insert_derivation(hash(2), 1, false, key(11));
    assert_eq!(store.derivation_count(), 2);
    let hashes = store.p2_puzzle_hashes();
    assert_eq!(hashes.len(), 2);
    assert!(hashes[0] == hash(1));
    assert!(hashes[1] == hash(2));
    assert!(store.is_p2_puzzle_hash(&hash(1)));
    assert!(store.is_p2_puzzle_hash(&hash(2)));
    assert!(!store.is_p2_puzzle_hash(&hash(3)));
}

#[test]
fn derivation_lookup_finds_first_record() {
    let mut store = WalletStore::new();
    store.insert_derivation(hash(1), 0, false, key(10));
    store.insert_derivation(hash(2), 7, true, key(11));
    let found = store.derivation(&key(11)).unwrap();
    assert_eq!(found.derivation_index, 7);
    assert!(found.is_hardened);
    assert!(store.derivation(&key(12)).is_none());
}

#[test]
fn coin_state_upsert_is_keyed_by_coin_id() {
    let mut store = WalletStore::new();
    store.insert_coin_state(hash(100), state(1, 2, 500, None));
    store.insert_coin_state(hash(101), state(1, 3, 600, None));
    assert_eq!(store.coin_count(), 2);

    let read = store.coin_state(&hash(100)).unwrap();
    assert_eq!(read.coin.amount, 500);
    assert_eq!(read.spent_height, None);

    // A later report for the same coin id supersedes the earlier one.
    store.insert_coin_state(hash(100), state(1, 2, 500, Some(12345)));
    assert_eq!(store.coin_count(), 2);
    let read = store.coin_state(&hash(100)).unwrap();
    assert_eq!(read.spent_height, Some(12345));

    assert!(store.coin_state(&hash(102)).is_none());
}

#[test]
fn owned_coins_are_a_set() {
    let mut store = WalletStore::new();
    store.insert_p2_coin(hash(5));
    store.insert_p2_coin(hash(5));
    store.insert_p2_coin(hash(6));
    assert!(store.is_owned(&hash(5)));
    assert!(store.is_owned(&hash(6)));
    assert!(!store.is_owned(&hash(7)));
}

#[test]
fn coin_ids_depend_on_every_coin_field() {
    let base = CoinRec {
        parent_coin_info: hash(1),
        puzzle_hash: hash(2),
        amount: 100,
    };
    let other_parent = CoinRec {
        parent_coin_info: hash(3),
        puzzle_hash: hash(2),
        amount: 100,
    };
    let other_amount = CoinRec {
        parent_coin_info: hash(1),
        puzzle_hash: hash(2),
        amount: 101,
    };
    let id = sage::chain::coin_id(&base);
    assert!(id != sage::chain::coin_id(&other_parent));
    assert!(id != sage::chain::coin_id(&other_amount));
    assert!(id == sage::chain::coin_id(&base.dup()));
    // The id is a digest, not any of the coin's own fields.
    assert!(id != base.parent_coin_info);
    assert!(id != base.puzzle_hash);
}

#[test]
fn peak_is_replaced_by_insert() {
    let mut store = WalletStore::new();
    assert!(store.latest_peak().is_none());
    store.insert_peak(100, hash(9));
    let peak = store.latest_peak().unwrap();
    assert_eq!(peak.height, 100);
    assert!(peak.header_hash == hash(9));
    store.insert_peak(150, hash(10));
    let peak = store.latest_peak().unwrap();
    assert_eq!(peak.height, 150);
    assert!(peak.header_hash == hash(10));
}
