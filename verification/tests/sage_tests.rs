use sage::api::{
    DeleteKey, GenerateMnemonic, ImportKey, Login, Logout, RenameKey, Resync, SetWalletEmoji,
};
use sage::errors::Error;
use sage::sage::{decode_key_material, Sage, WalletConfigEntry};
use sage::store::WalletStore;

const MNEMONIC: &str = "abandon abandon abandon abandon abandon abandon abandon abandon abandon abandon abandon about";

fn entry(name: &str, fingerprint: u32) -> WalletConfigEntry {
    WalletConfigEntry {
        name: name.to_string(),
        fingerprint,
        emoji: None,
        network: None,
    }
}

fn import(req_key: &str, derivation_index: u32) -> (Sage, WalletStore, u32) {
    let mut sage = Sage::new();
    let mut store = WalletStore::new();
    let response = sage
        .import_key(
            ImportKey {
                name: "main".to_string(),
                key: req_key.to_string(),
                derivation_index,
                save_secrets: true,
                login: true,
                emoji: None,
            },
            &mut store,
        )
        .unwrap();
    let fingerprint = response.fingerprint;
    (sage, store, fingerprint)
}

#[test]
fn login_and_logout_switch_the_active_wallet() {
    let mut sage = Sage::new();
    sage.login(Login { fingerprint: 77 }).unwrap();
    assert_eq!(sage.fingerprint, Some(77));
    sage.logout(Logout {}).unwrap();
    assert_eq!(sage.fingerprint, None);
}

#[test]
fn rename_key_updates_only_the_named_wallet() {
    let mut sage = Sage::new();
    sage.wallets.push(entry("one", 1));
    sage.wallets.push(entry("two", 2));

    sage.rename_key(RenameKey {
        fingerprint: 2,
        name: "renamed".to_string(),
    })
    .unwrap();
    assert_eq!(sage.wallets[0].name, "one");
    assert_eq!(sage.wallets[1].name, "renamed");

    let missing = sage.rename_key(RenameKey {
        fingerprint: 9,
        name: "nobody".to_string(),
    });
    assert_eq!(missing.unwrap_err(), Error::UnknownFingerprint);
    assert_eq!(sage.wallets[1].name, "renamed");
}

#[test]
fn set_wallet_emoji_updates_only_the_named_wallet() {
    let mut sage = Sage::new();
    sage.wallets.push(entry("one", 1));

    sage.set_wallet_emoji(SetWalletEmoji {
        fingerprint: 1,
        emoji: Some("star".to_string()),
    })
    .unwrap();
    assert_eq!(sage.wallets[0].emoji, Some("star".to_string()));
    assert_eq!(sage.wallets[0].name, "one");

    let missing = sage.set_wallet_emoji(SetWalletEmoji {
        fingerprint: 2,
        emoji: None,
    });
    assert_eq!(missing.unwrap_err(), Error::UnknownFingerprint);
}

#[test]
fn delete_key_removes_the_wallet_and_logs_it_out() {
    let mut sage = Sage::new();
    sage.wallets.push(entry("one", 1));
    sage.wallets.push(entry("two", 2));
    sage.wallets.push(entry("also-two", 2));
    sage.fingerprint = Some(2);

    sage.delete_key(DeleteKey { fingerprint: 2 }).unwrap();
    assert_eq!(sage.wallets.len(), 1);
    assert_eq!(sage.wallets[0].fingerprint, 1);
    assert_eq!(sage.fingerprint, None);

    // Deleting a fingerprint that is not active keeps the active wallet.
    sage.fingerprint = Some(1);
    sage.delete_key(DeleteKey { fingerprint: 9 }).unwrap();
    assert_eq!(sage.fingerprint, Some(1));
    assert_eq!(sage.wallets.len(), 1);
}

#[test]
fn generated_mnemonics_have_the_requested_word_count() {
    let sage = Sage::new();
    let long = sage
        .generate_mnemonic(GenerateMnemonic { use_24_words: true })
        .unwrap();
    assert_eq!(long.mnemonic.split_whitespace().count(), 24);
    let short = sage
        .generate_mnemonic(GenerateMnemonic { use_24_words: false })
        .unwrap();
    assert_eq!(short.mnemonic.split_whitespace().count(), 12);
}

#[test]
fn generated_mnemonics_are_importable() {
    let sage = Sage::new();
    let generated = sage
        .generate_mnemonic(GenerateMnemonic { use_24_words: false })
        .unwrap();
    // The generated phrase is a valid mnemonic: it decodes as key material.
    assert!(decode_key_material(&generated.mnemonic).is_ok());
}

#[test]
fn import_key_from_mnemonic_expands_both_trees() {
    let (sage, store, fingerprint) = import(MNEMONIC, 5);
    assert_eq!(sage.fingerprint, Some(fingerprint));
    assert_eq!(sage.wallets.len(), 1);
    assert_eq!(sage.wallets[0].name, "main");
    // Five unhardened and five hardened records.
    assert_eq!(store.derivation_count(), 10);
}

#[test]
fn import_key_is_deterministic_per_key() {
    let (_, _, first) = import(MNEMONIC, 0);
    let (_, _, second) = import(MNEMONIC, 0);
    assert_eq!(first, second);
}

#[test]
fn import_public_key_hex_expands_only_the_unhardened_tree() {
    // Derive a real public key, then import its hex form watch-only.
    let seed = vec![5u8; 64];
    let master_sk = sage::bls::secret_key_from_seed(&seed);
    let master_pk = sage::bls::public_key_of(&master_sk).unwrap();
    let pk_hex = hex::encode(master_pk.to_vec());

    let (_, store, fingerprint) = import(&pk_hex, 3);
    assert_eq!(store.derivation_count(), 3);
    assert_eq!(fingerprint, sage::bls::fingerprint(&master_pk).unwrap());

    // The same key with a hex marker imports identically.
    let (_, store2, fingerprint2) = import(&format!("0x{pk_hex}"), 3);
    assert_eq!(store2.derivation_count(), 3);
    assert_eq!(fingerprint, fingerprint2);
}

#[test]
fn import_secret_key_hex_expands_both_trees() {
    let seed = vec![5u8; 64];
    let master_sk = sage::bls::secret_key_from_seed(&seed);
    let sk_hex = hex::encode(master_sk.to_vec());
    let (_, store, _) = import(&sk_hex, 2);
    assert_eq!(store.derivation_count(), 4);
}

#[test]
fn invalid_keys_are_rejected() {
    let mut sage = Sage::new();
    let mut store = WalletStore::new();
    let result = sage.import_key(
        ImportKey {
            name: "bad".to_string(),
            key: "not hex and not a mnemonic".to_string(),
            derivation_index: 1,
            save_secrets: true,
            login: true,
            emoji: None,
        },
        &mut store,
    );
    assert_eq!(result.unwrap_err(), Error::InvalidKey);
    assert_eq!(sage.wallets.len(), 0);
    assert_eq!(store.derivation_count(), 0);

    // Hex of an unusable length is rejected too.
    assert_eq!(
        decode_key_material(&"abcd".to_string()).unwrap_err(),
        Error::InvalidKey
    );
}

#[test]
fn resync_always_forgets_the_peak_and_wipes_only_on_request() {
    let (mut sage, mut store, fingerprint) = import(MNEMONIC, 2);
    store.insert_peak(123, sage::ids::Hash32::from_bytes(vec![4u8; 32]).unwrap());
    assert_eq!(store.derivation_count(), 4);

    // A plain resync keeps coins and addresses but drops the peak, and the
    // wallet stays logged in.
    sage.resync(
        Resync {
            fingerprint,
            delete_coins: false,
            delete_assets: false,
            delete_files: false,
            delete_offers: false,
            delete_addresses: false,
            delete_blocks: false,
        },
        &mut store,
    )
    .unwrap();
    assert!(store.latest_peak().is_none());
    assert_eq!(store.derivation_count(), 4);
    assert_eq!(sage.fingerprint, Some(fingerprint));

    // Deleting addresses empties the watched set.
    sage.resync(
        Resync {
            fingerprint,
            delete_coins: true,
            delete_assets: false,
            delete_files: false,
            delete_offers: false,
            delete_addresses: true,
            delete_blocks: false,
        },
        &mut store,
    )
    .unwrap();
    assert_eq!(store.derivation_count(), 0);
    assert_eq!(store.coin_count(), 0);
}

#[test]
fn decode_key_material_reads_mnemonics() {
    let material = decode_key_material(&MNEMONIC.to_string()).unwrap();
    assert!(material.master_sk.is_some());
}
