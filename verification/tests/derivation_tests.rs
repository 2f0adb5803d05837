use sage::bls::{
    fingerprint, parse_public_key, parse_secret_key, public_key_of, secret_key_from_seed,
    unhardened_intermediate_pk,
};
use sage::derivation::{derive_batch, derive_p2};

fn intermediate_key(seed_byte: u8) -> sage::ids::PublicKeyBytes {
    let seed = vec![seed_byte; 64];
    let master_sk = secret_key_from_seed(&seed);
    let master_pk = public_key_of(&master_sk).unwrap();
    unhardened_intermediate_pk(&master_pk).unwrap()
}

#[test]
fn deriving_the_same_index_twice_is_byte_identical() {
    let intermediate = intermediate_key(1);
    let first = derive_p2(&intermediate, 42).unwrap();
    let second = derive_p2(&intermediate, 42).unwrap();
    assert_eq!(first.p2_puzzle_hash.to_vec(), second.p2_puzzle_hash.to_vec());
    assert_eq!(first.synthetic_key.to_vec(), second.synthetic_key.to_vec());
}

#[test]
fn different_indices_give_different_addresses() {
    let intermediate = intermediate_key(1);
    let a = derive_p2(&intermediate, 0).unwrap();
    let b = derive_p2(&intermediate, 1).unwrap();
    assert_ne!(a.p2_puzzle_hash.to_vec(), b.p2_puzzle_hash.to_vec());
}

#[test]
fn batches_never_reorder_or_skip_indices() {
    let intermediate = intermediate_key(2);
    let batch = derive_batch(&intermediate, 10, 8).unwrap();
    assert_eq!(batch.len(), 8);
    for (offset, derived) in batch.iter().enumerate() {
        assert_eq!(derived.index, 10 + offset as u32);
        let alone = derive_p2(&intermediate, derived.index).unwrap();
        assert_eq!(alone.p2_puzzle_hash.to_vec(), derived.p2_puzzle_hash.to_vec());
    }
}

#[test]
fn public_key_bytes_round_trip_through_parsing() {
    let seed = vec![3u8; 64];
    let master_sk = secret_key_from_seed(&seed);
    let master_pk = public_key_of(&master_sk).unwrap();

    let reparsed = parse_public_key(&master_pk.to_vec()).unwrap();
    assert_eq!(reparsed.to_vec(), master_pk.to_vec());

    let sk_reparsed = parse_secret_key(&master_sk.to_vec()).unwrap();
    assert_eq!(sk_reparsed.to_vec(), master_sk.to_vec());

    // Fingerprints are a function of the key bytes alone.
    assert_eq!(
        fingerprint(&master_pk).unwrap(),
        fingerprint(&reparsed).unwrap()
    );
}

#[test]
fn wrong_length_keys_are_rejected() {
    assert!(parse_public_key(&vec![1u8; 47]).is_none());
    assert!(parse_secret_key(&vec![1u8; 31]).is_none());
}

#[test]
fn invalid_key_bytes_cannot_derive() {
    // 48 bytes that are not a valid curve point.
    let bogus = sage::ids::PublicKeyBytes::from_bytes(vec![1u8; 48]).unwrap();
    assert_eq!(
        derive_p2(&bogus, 0).unwrap_err(),
        sage::errors::WalletError::InvalidKeyMaterial
    );
}
