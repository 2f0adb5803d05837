use sage::bls::{public_key_of, secret_key_from_seed, unhardened_intermediate_pk};
use sage::chain::coin_id;
use sage::derivation::derive_p2;
use sage::errors::{SyncError, WalletError};
use sage::events::SyncEvent;
use sage::ids::Hash32;
use sage::registry::PeerState;
use sage::store::{CoinRec, CoinStateRec, WalletStore};
use sage::sync::{
    apply_page, sync_puzzle_hashes, sync_wallet, CoinStatePage, PeerResponse, RejectReason,
    ScriptedPeer, SyncPhase, SyncSession,
};

fn hash(byte: u8) -> Hash32 {
    Hash32::from_bytes(vec![byte; 32]).unwrap()
}

fn coin(parent: u8, puzzle_hash: &Hash32, amount: u64, spent: Option<u32>) -> CoinStateRec {
    CoinStateRec {
        coin: CoinRec {
            parent_coin_info: hash(parent),
            puzzle_hash: puzzle_hash.dup(),
            amount,
        },
        created_height: Some(5),
        spent_height: spent,
    }
}

fn page(states: Vec<CoinStateRec>, height: u32, header: u8, finished: bool) -> CoinStatePage {
    CoinStatePage {
        coin_states: states,
        height,
        header_hash: hash(header),
        is_finished: finished,
    }
}

fn dup_states(states: &[CoinStateRec]) -> Vec<CoinStateRec> {
    states.iter().map(|s| s.dup()).collect()
}

#[test]
fn ingesting_a_page_twice_equals_ingesting_it_once() {
    let watched = hash(50);
    let mut store = WalletStore::new();
    store.insert_derivation(
        watched.dup(),
        0,
        false,
        sage::ids::PublicKeyBytes::from_bytes(vec![3u8; 48]).unwrap(),
    );

    let states = vec![
        coin(1, &watched, 100, None),
        coin(2, &hash(60), 200, None),
    ];
    let first = page(dup_states(&states), 10, 9, true);
    let again = page(dup_states(&states), 10, 9, true);

    let found = apply_page(&mut store, &first);
    assert!(found);
    let count_once = store.coin_count();
    let id_one = coin_id(&states[0].coin);
    let id_two = coin_id(&states[1].coin);
    assert_eq!(count_once, 2);
    assert!(store.is_owned(&id_one));
    assert!(!store.is_owned(&id_two));

    apply_page(&mut store, &again);
    assert_eq!(store.coin_count(), count_once);
    assert_eq!(store.coin_state(&id_one).unwrap().coin.amount, 100);
    assert_eq!(store.coin_state(&id_two).unwrap().coin.amount, 200);
    assert!(store.is_owned(&id_one));
    assert!(!store.is_owned(&id_two));
}

#[test]
fn later_spent_height_supersedes_earlier_report() {
    let watched = hash(50);
    let mut store = WalletStore::new();
    store.insert_derivation(
        watched.dup(),
        0,
        false,
        sage::ids::PublicKeyBytes::from_bytes(vec![3u8; 48]).unwrap(),
    );

    let unspent = coin(1, &watched, 100, None);
    let spent = coin(1, &watched, 100, Some(12345));
    let id = coin_id(&unspent.coin);

    let mut session = SyncSession::new(None, hash(0));
    let mut events: Vec<SyncEvent> = Vec::new();

    session
        .apply_response(
            &mut store,
            PeerResponse::Page(page(vec![unspent], 10, 1, false)),
            &mut events,
        )
        .unwrap();
    assert_eq!(store.coin_state(&id).unwrap().spent_height, None);
    assert!(matches!(session.phase(), SyncPhase::Requesting));

    session
        .apply_response(
            &mut store,
            PeerResponse::Page(page(vec![spent], 12, 2, true)),
            &mut events,
        )
        .unwrap();
    assert_eq!(store.coin_state(&id).unwrap().spent_height, Some(12345));
    assert!(matches!(session.phase(), SyncPhase::Done));
    assert!(session.found_coins());
    assert_eq!(events.len(), 2);
    assert!(matches!(events[0], SyncEvent::CoinsUpdated));
}

#[test]
fn subscription_limit_fails_session_without_writes() {
    let mut store = WalletStore::new();
    let mut session = SyncSession::new(None, hash(0));
    let mut events: Vec<SyncEvent> = Vec::new();

    let result = session.apply_response(
        &mut store,
        PeerResponse::Rejection(RejectReason::ExceededSubscriptionLimit),
        &mut events,
    );
    assert_eq!(
        result.unwrap_err(),
        WalletError::Sync(SyncError::SubscriptionLimit)
    );
    assert!(matches!(
        session.phase(),
        SyncPhase::Failed(SyncError::SubscriptionLimit)
    ));
    assert_eq!(store.coin_count(), 0);
    assert!(events.is_empty());
}

#[test]
fn reorg_rejection_is_surfaced_as_its_own_kind() {
    let mut store = WalletStore::new();
    let mut session = SyncSession::new(Some(80), hash(3));
    let mut events: Vec<SyncEvent> = Vec::new();

    let result = session.apply_response(
        &mut store,
        PeerResponse::Rejection(RejectReason::Reorg),
        &mut events,
    );
    assert_eq!(result.unwrap_err(), WalletError::Sync(SyncError::Reorg));
    assert!(matches!(session.phase(), SyncPhase::Failed(SyncError::Reorg)));
}

#[test]
fn timeout_fails_the_sync_attempt() {
    let mut store = WalletStore::new();
    store.insert_derivation(
        hash(50),
        0,
        false,
        sage::ids::PublicKeyBytes::from_bytes(vec![3u8; 48]).unwrap(),
    );
    let mut peer = ScriptedPeer::new(Vec::new());
    let mut events: Vec<SyncEvent> = Vec::new();
    let batch = store.p2_puzzle_hashes();
    let result = sync_puzzle_hashes(&mut store, &mut peer, None, &hash(0), &batch, &mut events);
    assert_eq!(result.unwrap_err(), WalletError::Sync(SyncError::Timeout));
}

#[test]
fn empty_wallet_derives_one_batch_and_stops() {
    // A wallet with zero watched addresses against a synthetic peer that
    // reports no coin states: the pass derives exactly one batch of 1000
    // addresses, syncs it once, and terminates without a second batch.
    let seed = vec![7u8; 64];
    let master_sk = secret_key_from_seed(&seed);
    let master_pk = public_key_of(&master_sk).unwrap();
    let intermediate = unhardened_intermediate_pk(&master_pk).unwrap();

    let mut store = WalletStore::new();
    let mut peer = ScriptedPeer::new(vec![PeerResponse::Page(page(Vec::new(), 20, 4, true))]);
    let registry = PeerState::new();
    let mut events: Vec<SyncEvent> = Vec::new();

    let summary = sync_wallet(
        &mut store,
        &intermediate,
        &hash(0),
        &mut peer,
        &registry,
        &mut events,
    )
    .unwrap();

    assert_eq!(summary.expansion_rounds, 1);
    assert!(!summary.found_coins);
    assert_eq!(store.derivation_count(), 1000);
    assert_eq!(peer.remaining(), 0);
    assert_eq!(store.coin_count(), 0);
    // No peak was reported by the registry, which is not an error.
    assert!(store.latest_peak().is_none());
}

#[test]
fn coin_activity_triggers_one_more_expansion_round() {
    let seed = vec![9u8; 64];
    let master_sk = secret_key_from_seed(&seed);
    let master_pk = public_key_of(&master_sk).unwrap();
    let intermediate = unhardened_intermediate_pk(&master_pk).unwrap();

    // The coin pays to the address at derivation index 0.
    let derived = derive_p2(&intermediate, 0).unwrap();
    let found_coin = coin(1, &derived.p2_puzzle_hash, 1234, None);
    let found_id = coin_id(&found_coin.coin);

    let mut store = WalletStore::new();
    let mut peer = ScriptedPeer::new(vec![
        PeerResponse::Page(page(vec![found_coin], 30, 5, true)),
        PeerResponse::Page(page(Vec::new(), 30, 5, true)),
    ]);
    let mut registry = PeerState::new();
    registry.observe_peak(30, hash(5));
    let mut events: Vec<SyncEvent> = Vec::new();

    let summary = sync_wallet(
        &mut store,
        &intermediate,
        &hash(0),
        &mut peer,
        &registry,
        &mut events,
    )
    .unwrap();

    assert_eq!(summary.expansion_rounds, 2);
    assert!(summary.found_coins);
    assert_eq!(store.derivation_count(), 2000);
    assert_eq!(store.coin_count(), 1);
    assert!(store.is_owned(&found_id));
    assert_eq!(peer.remaining(), 0);
    // One coins-updated event per committed page.
    let coin_updates = events
        .iter()
        .filter(|e| matches!(e, SyncEvent::CoinsUpdated))
        .count();
    assert_eq!(coin_updates, 2);
    // The registry's confirmed peak was persisted.
    let peak = store.latest_peak().unwrap();
    assert_eq!(peak.height, 30);
}

#[test]
fn stored_peak_never_moves_backwards() {
    let seed = vec![11u8; 64];
    let master_sk = secret_key_from_seed(&seed);
    let master_pk = public_key_of(&master_sk).unwrap();
    let intermediate = unhardened_intermediate_pk(&master_pk).unwrap();

    let mut store = WalletStore::new();
    store.insert_derivation(hash(50), 0, false, derive_p2(&intermediate, 0).unwrap().synthetic_key);
    store.insert_peak(100, hash(1));

    // A pass whose registry saw only an older tip must not regress the peak.
    let mut peer = ScriptedPeer::new(vec![PeerResponse::Page(page(Vec::new(), 40, 2, true))]);
    let mut registry = PeerState::new();
    registry.observe_peak(40, hash(2));
    let mut events: Vec<SyncEvent> = Vec::new();
    sync_wallet(&mut store, &intermediate, &hash(0), &mut peer, &registry, &mut events).unwrap();
    assert_eq!(store.latest_peak().unwrap().height, 100);

    // A pass that confirmed a newer tip advances it.
    let mut peer = ScriptedPeer::new(vec![PeerResponse::Page(page(Vec::new(), 150, 3, true))]);
    let mut registry = PeerState::new();
    registry.observe_peak(150, hash(3));
    let mut events: Vec<SyncEvent> = Vec::new();
    sync_wallet(&mut store, &intermediate, &hash(0), &mut peer, &registry, &mut events).unwrap();
    assert_eq!(store.latest_peak().unwrap().height, 150);
}

#[test]
fn registry_keeps_the_maximum_observed_peak() {
    let mut registry = PeerState::new();
    assert!(registry.peak().is_none());
    registry.observe_peak(10, hash(1));
    registry.observe_peak(5, hash(2));
    let peak = registry.peak().unwrap();
    assert_eq!(peak.height, 10);
    assert!(peak.header_hash == hash(1));
    // On an equal height the later writer wins.
    registry.observe_peak(10, hash(3));
    assert!(registry.peak().unwrap().header_hash == hash(3));
}
