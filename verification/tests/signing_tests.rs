use sage::bls::{empty_signature, public_key_of, secret_key_from_seed, unhardened_intermediate_pk};
use sage::derivation::derive_p2;
use sage::errors::WalletError;
use sage::ids::Hash32;
use sage::signing::{
    sign_requirements, spendable_inputs, CoinSpendRec, RequiredBls, SpendBundleRec, Wallet,
};
use sage::store::{CoinRec, WalletStore};

fn hash(byte: u8) -> Hash32 {
    Hash32::from_bytes(vec![byte; 32]).unwrap()
}

fn spend(parent: u8, amount: u64) -> CoinSpendRec {
    CoinSpendRec {
        coin: CoinRec {
            parent_coin_info: hash(parent),
            puzzle_hash: hash(42),
            amount,
        },
        // The serialized program `1` returns its solution as the condition
        // list; a nil solution yields no conditions.
        puzzle_reveal: vec![0x01],
        solution: vec![0x80],
    }
}

struct Fixture {
    wallet: Wallet,
    master_sk: sage::ids::SecretKeyBytes,
    known: RequiredBls,
    unknown: RequiredBls,
}

fn fixture() -> Fixture {
    let seed = vec![5u8; 64];
    let master_sk = secret_key_from_seed(&seed);
    let master_pk = public_key_of(&master_sk).unwrap();
    let intermediate = unhardened_intermediate_pk(&master_pk).unwrap();

    let derived = derive_p2(&intermediate, 0).unwrap();
    let mut store = WalletStore::new();
    store.insert_derivation(
        derived.p2_puzzle_hash.dup(),
        0,
        false,
        derived.synthetic_key.dup(),
    );

    let other = derive_p2(&intermediate, 1).unwrap();

    Fixture {
        wallet: Wallet { store },
        master_sk,
        known: RequiredBls {
            public_key: derived.synthetic_key,
            message: b"spend this coin".to_vec(),
        },
        unknown: RequiredBls {
            public_key: other.synthetic_key,
            message: b"spend that coin".to_vec(),
        },
    }
}

#[test]
fn resolvable_key_signs_in_strict_mode() {
    let fx = fixture();
    let base = empty_signature();
    let result = sign_requirements(&fx.wallet.store, &vec![fx.known], &fx.master_sk, &base, false)
        .unwrap();
    // A contribution was folded in.
    assert_ne!(result.to_vec(), base.to_vec());
}

#[test]
fn unresolvable_key_fails_strict_and_is_skipped_in_partial_mode() {
    let fx = fixture();
    let base = empty_signature();

    // Strict mode: the identical input fails the call.
    let strict = sign_requirements(
        &fx.wallet.store,
        &vec![fx.unknown.dup()],
        &fx.master_sk,
        &base,
        false,
    );
    assert_eq!(strict.unwrap_err(), WalletError::UnknownPublicKey);

    // Partial mode: the call succeeds and the aggregate omits that key's
    // contribution entirely.
    let partial = sign_requirements(
        &fx.wallet.store,
        &vec![fx.unknown],
        &fx.master_sk,
        &base,
        true,
    )
    .unwrap();
    assert_eq!(partial.to_vec(), base.to_vec());
}

#[test]
fn partial_mode_still_signs_resolvable_keys() {
    let fx = fixture();
    let base = empty_signature();
    let known = fx.known.dup();
    let mixed = vec![fx.known, fx.unknown];

    let with_both = sign_requirements(&fx.wallet.store, &mixed, &fx.master_sk, &base, true)
        .unwrap();
    let with_known_only =
        sign_requirements(&fx.wallet.store, &vec![known], &fx.master_sk, &base, true).unwrap();
    // The unresolvable entry contributed nothing.
    assert_eq!(with_both.to_vec(), with_known_only.to_vec());
}

#[test]
fn fresh_coins_are_excluded_from_signing() {
    let spends = vec![spend(0, 100), spend(1, 200), spend(0, 300)];
    let inputs = spendable_inputs(&spends);
    assert_eq!(inputs.len(), 1);
    assert_eq!(inputs[0].coin.amount, 200);
}

#[test]
fn unrunnable_spend_fails_the_signature_calculator() {
    let fx = fixture();
    let bad_spend = CoinSpendRec {
        coin: CoinRec {
            parent_coin_info: hash(1),
            puzzle_hash: hash(42),
            amount: 1,
        },
        // Not a complete serialized program.
        puzzle_reveal: vec![0xff],
        solution: vec![0x80],
    };
    let bundle = SpendBundleRec::new(vec![bad_spend]);
    let result = fx
        .wallet
        .sign_transaction(bundle, &hash(204), fx.master_sk, false);
    assert_eq!(result.unwrap_err(), WalletError::Signer);
}

#[test]
fn sign_transaction_preserves_coin_spends() {
    let fx = fixture();
    // One fresh coin (excluded) and one historic coin whose program
    // requires no signatures.
    let bundle = SpendBundleRec::new(vec![spend(0, 100), spend(1, 200)]);
    let before = empty_signature();

    let signed = fx
        .wallet
        .sign_transaction(bundle, &hash(204), fx.master_sk, false)
        .unwrap();
    assert_eq!(signed.coin_spends.len(), 2);
    assert_eq!(signed.coin_spends[1].coin.amount, 200);
    // No required signatures, so the aggregate is unchanged.
    assert_eq!(signed.aggregated_signature.to_vec(), before.to_vec());
}
