//! Key-management requests: logging a wallet in and out, importing key
//! material, generating mnemonics, and editing the stored wallet list.
//!
//! Hex decoding, mnemonic handling and randomness live behind trusted
//! wrappers; the dispatch over the decoded key material — public key,
//! secret key, or mnemonic phrase — and every change to the wallet list are
//! verified.

use vstd::prelude::*;

use crate::api::{
    GenerateMnemonic, GenerateMnemonicResponse, ImportKey, ImportKeyResponse, Login, LoginResponse,
    Logout, LogoutResponse, RenameKey, RenameKeyResponse, Resync, ResyncResponse, SetWalletEmoji,
    SetWalletEmojiResponse, DeleteKey, DeleteKeyResponse,
};
use crate::bls::{
    fingerprint, hardened_intermediate_sk, is_bls_pk, is_bls_sk, parse_public_key,
    parse_secret_key, public_key_of, secret_key_from_seed, spec_fingerprint,
    spec_hardened_intermediate_sk, spec_pk_of_sk, spec_sk_from_seed,
    spec_unhardened_intermediate_pk, unhardened_intermediate_pk,
};
use crate::derivation::{
    derive_hardened_p2, derive_p2, spec_hardened_record, spec_unhardened_record,
};
use crate::errors::Error;
use crate::ids::{PublicKeyBytes, SecretKeyBytes};
use crate::store::WalletStore;

use rand::{Rng, SeedableRng};

verus! {

// ---------------------------------------------------------------------------
// Trusted wrappers: hex, mnemonics, randomness
// ---------------------------------------------------------------------------

/// Whether a byte is the code of a hex digit.
pub open spec fn is_hex_digit(b: u8) -> bool {
    (48 <= b <= 57) || (97 <= b <= 102) || (65 <= b <= 70)
}

/// The value of a hex digit: digits, then lower-case and upper-case letters.
pub open spec fn hex_digit_value(b: u8) -> int {
    if 48 <= b <= 57 {
        b - 48
    } else if 97 <= b <= 102 {
        b - 87
    } else {
        b - 55
    }
}

/// What `hex::decode` returns: one byte per pair of hex digits where the
/// input is of even length and entirely hex digits, nothing otherwise.
pub open spec fn spec_hex_decoded(s: Seq<u8>) -> Option<Seq<u8>> {
    if s.len() % 2 == 0 && (forall|i: int| 0 <= i < s.len() ==> is_hex_digit(#[trigger] s[i])) {
        Some(
            Seq::new(
                s.len() / 2,
                |i: int| (16 * hex_digit_value(s[2 * i]) + hex_digit_value(s[2 * i + 1])) as u8,
            ),
        )
    } else {
        None
    }
}

/// Relies on `hex::decode`: it accepts exactly the even-length strings of
/// hex digits, in either case, and decodes each digit pair to one byte.
#[verifier::external_body]
pub fn hex_decode(bytes: &Vec<u8>) -> (r: Option<Vec<u8>>)
    ensures
        r is Some <==> spec_hex_decoded(bytes@) is Some,
        r matches Some(b) ==> Some(b@) == spec_hex_decoded(bytes@),
{
    hex::decode(bytes.as_slice()).ok()
}

/// Whether `bip39::Mnemonic::parse` accepts a phrase.
pub uninterp spec fn is_valid_mnemonic(s: Seq<char>) -> bool;

/// What `bip39::Mnemonic::to_seed` with an empty passphrase returns for a
/// parsed phrase: a function of the phrase alone.
pub uninterp spec fn spec_mnemonic_seed(s: Seq<char>) -> Seq<u8>;

/// Relies on `bip39::Mnemonic::parse` and `Mnemonic::to_seed`: whether a
/// phrase parses, and the 64-byte seed it yields with an empty passphrase,
/// are functions of the phrase alone.
#[verifier::external_body]
pub fn mnemonic_seed(phrase: &String) -> (r: Option<Vec<u8>>)
    ensures
        r is Some <==> is_valid_mnemonic(phrase@),
        r matches Some(b) ==> b@ == spec_mnemonic_seed(phrase@) && b@.len() == 64,
{
    let mnemonic = bip39::Mnemonic::parse(phrase.as_str()).ok()?;
    Some(mnemonic.to_seed("").to_vec())
}

/// Relies on `rand_chacha::ChaCha20Rng` seeded from the operating system:
/// the bytes are random; only their count is promised.
#[verifier::external_body]
pub fn random_entropy(count: usize) -> (r: Vec<u8>)
    ensures
        r@.len() == count,
{
    let mut rng = rand_chacha::ChaCha20Rng::from_entropy();
    let mut out = vec![0u8; count];
    rng.fill(out.as_mut_slice());
    out
}

/// Relies on `bip39::Mnemonic::from_entropy` and the phrase it displays as:
/// entropy of a valid length always yields a phrase, and the canonical
/// phrase of a mnemonic parses back as a valid mnemonic.
#[verifier::external_body]
pub fn mnemonic_from_entropy(entropy: &Vec<u8>) -> (r: Result<String, Error>)
    ensures
        entropy@.len() == 16 || entropy@.len() == 32 ==> r is Ok,
        r matches Ok(m) ==> is_valid_mnemonic(m@),
{
    bip39::Mnemonic::from_entropy(entropy.as_slice()).map(|m| m.to_string()).map_err(
        |_| Error::InvalidKey,
    )
}

// ---------------------------------------------------------------------------
// Key material decoding
// ---------------------------------------------------------------------------

/// What `str::as_bytes` returns: the UTF-8 encoding, a function of the
/// characters alone.
pub uninterp spec fn spec_utf8_bytes(s: Seq<char>) -> Seq<u8>;

/// Relies on `str::as_bytes`: the UTF-8 encoding of the string.
#[verifier::external_body]
fn key_to_bytes(key: &String) -> (r: Vec<u8>)
    ensures
        r@ == spec_utf8_bytes(key@),
{
    key.as_str().as_bytes().to_vec()
}

/// Strips one leading hex marker, upper or lower case, when present.
pub open spec fn spec_strip_hex_prefix(b: Seq<u8>) -> Seq<u8> {
    if b.len() >= 2 && b[0] == 48u8 && (b[1] == 120u8 || b[1] == 88u8) {
        b.skip(2)
    } else {
        b
    }
}

fn strip_hex_prefix(bytes: &Vec<u8>) -> (r: Vec<u8>)
    ensures
        r@ == spec_strip_hex_prefix(bytes@),
{
    // 48, 120 and 88 are the bytes of '0', 'x' and 'X'.
    let has_marker = bytes.len() >= 2 && bytes[0] == 48u8 && (bytes[1] == 120u8 || bytes[1]
        == 88u8);
    let start: usize = if has_marker {
        2
    } else {
        0
    };
    let mut out: Vec<u8> = Vec::new();
    let mut i: usize = start;
    while i < bytes.len()
        invariant
            start <= i <= bytes@.len(),
            out@ == bytes@.subrange(start as int, i as int),
        decreases bytes@.len() - i,
    {
        out.push(bytes[i]);
        i = i + 1;
        proof {
            assert(out@ =~= bytes@.subrange(start as int, i as int));
        }
    }
    proof {
        if has_marker {
            assert(out@ =~= bytes@.skip(2));
        } else {
            assert(out@ =~= bytes@);
        }
    }
    out
}

/// The master keys a key string decodes to.
#[derive(Debug)]
pub struct KeyMaterial {
    pub master_pk: PublicKeyBytes,
    pub master_sk: Option<SecretKeyBytes>,
}

/// Whether a key string is acceptable key material: hex of a valid public
/// key (48 bytes) or secret key (32 bytes), with an optional hex marker, or
/// a valid mnemonic phrase.
pub open spec fn spec_key_acceptable(key: Seq<char>) -> bool {
    match spec_hex_decoded(spec_strip_hex_prefix(spec_utf8_bytes(key))) {
        Some(decoded) => {
            if decoded.len() == 48 {
                is_bls_pk(decoded)
            } else if decoded.len() == 32 {
                is_bls_sk(decoded)
            } else {
                false
            }
        },
        None => is_valid_mnemonic(key),
    }
}

/// The master public key an acceptable key string decodes to.
pub open spec fn spec_imported_master_pk(key: Seq<char>) -> Seq<u8> {
    match spec_hex_decoded(spec_strip_hex_prefix(spec_utf8_bytes(key))) {
        Some(decoded) => if decoded.len() == 48 {
            decoded
        } else {
            spec_pk_of_sk(decoded)
        },
        None => spec_pk_of_sk(spec_sk_from_seed(spec_mnemonic_seed(key))),
    }
}

/// Whether an acceptable key string carries a master secret key: a hex
/// secret key or a mnemonic, but not a bare public key.
pub open spec fn spec_import_has_secret(key: Seq<char>) -> bool {
    match spec_hex_decoded(spec_strip_hex_prefix(spec_utf8_bytes(key))) {
        Some(decoded) => decoded.len() != 48,
        None => true,
    }
}

/// The master secret key an acceptable key string carries, where it does.
pub open spec fn spec_imported_master_sk(key: Seq<char>) -> Seq<u8> {
    match spec_hex_decoded(spec_strip_hex_prefix(spec_utf8_bytes(key))) {
        Some(decoded) => decoded,
        None => spec_sk_from_seed(spec_mnemonic_seed(key)),
    }
}

/// Decodes a key string into master key material.
///
/// A hex string decodes to a bare public key (48 bytes, watch-only) or a
/// secret key (32 bytes); any other decoded length is rejected. A string
/// that is not hex is read as a mnemonic phrase, whose seed yields the
/// master secret key. Exactly the acceptable keys decode.
pub fn decode_key_material(key: &String) -> (r: Result<KeyMaterial, Error>)
    ensures
        r is Ok <==> spec_key_acceptable(key@),
        r matches Err(e) ==> e == Error::InvalidKey,
        r matches Ok(m) ==> {
            &&& m.master_pk.wf()
            &&& is_bls_pk(m.master_pk@)
            &&& (m.master_sk matches Some(k) ==> k.wf() && is_bls_sk(k@) && m.master_pk@
                == spec_pk_of_sk(k@))
            &&& (match spec_hex_decoded(spec_strip_hex_prefix(spec_utf8_bytes(key@))) {
                Some(decoded) => {
                    if decoded.len() == 48 {
                        m.master_pk@ == decoded && m.master_sk is None
                    } else {
                        m.master_sk matches Some(k) && k@ == decoded
                    }
                },
                None => m.master_sk matches Some(k) && k@ == spec_sk_from_seed(
                    spec_mnemonic_seed(key@),
                ),
            })
        },
{
    let key_bytes = key_to_bytes(key);
    let stripped = strip_hex_prefix(&key_bytes);
    match hex_decode(&stripped) {
        Some(decoded) => {
            if decoded.len() == 48 {
                match parse_public_key(&decoded) {
                    Some(master_pk) => Ok(KeyMaterial { master_pk, master_sk: None }),
                    None => Err(Error::InvalidKey),
                }
            } else if decoded.len() == 32 {
                match parse_secret_key(&decoded) {
                    Some(master_sk) => {
                        match public_key_of(&master_sk) {
                            Ok(master_pk) => Ok(
                                KeyMaterial { master_pk, master_sk: Some(master_sk) },
                            ),
                            Err(_) => Err(Error::InvalidKey),
                        }
                    },
                    None => Err(Error::InvalidKey),
                }
            } else {
                Err(Error::InvalidKey)
            }
        },
        None => {
            match mnemonic_seed(key) {
                Some(seed) => {
                    let master_sk = secret_key_from_seed(&seed);
                    match public_key_of(&master_sk) {
                        Ok(master_pk) => Ok(KeyMaterial { master_pk, master_sk: Some(master_sk) }),
                        Err(_) => Err(Error::InvalidKey),
                    }
                },
                None => Err(Error::InvalidKey),
            }
        },
    }
}

// ---------------------------------------------------------------------------
// The wallet list
// ---------------------------------------------------------------------------

/// One stored wallet: its display name, key fingerprint, and optional
/// emoji and network override.
#[derive(Debug)]
pub struct WalletConfigEntry {
    pub name: String,
    pub fingerprint: u32,
    pub emoji: Option<String>,
    pub network: Option<String>,
}

impl WalletConfigEntry {
    pub fn dup(&self) -> (r: WalletConfigEntry)
        ensures
            r == *self,
    {
        WalletConfigEntry {
            name: self.name.clone(),
            fingerprint: self.fingerprint,
            emoji: match &self.emoji {
                Some(s) => Some(s.clone()),
                None => None,
            },
            network: match &self.network {
                Some(s) => Some(s.clone()),
                None => None,
            },
        }
    }
}

/// The first wallet with the given fingerprint, if any.
pub open spec fn spec_wallet_position(wallets: Seq<WalletConfigEntry>, fp: u32) -> Option<int>
    decreases wallets.len(),
{
    if wallets.len() == 0 {
        None
    } else if wallets[0].fingerprint == fp {
        Some(0)
    } else {
        match spec_wallet_position(wallets.drop_first(), fp) {
            Some(i) => Some(i + 1),
            None => None,
        }
    }
}

/// When a prefix holds no match and an index matches, the first match is
/// that index.
proof fn lemma_wallet_position_first(wallets: Seq<WalletConfigEntry>, fp: u32, i: int)
    requires
        0 <= i < wallets.len(),
        wallets[i].fingerprint == fp,
        forall|j: int| 0 <= j < i ==> wallets[j].fingerprint != fp,
    ensures
        spec_wallet_position(wallets, fp) == Some(i),
    decreases wallets.len(),
{
    if i > 0 {
        lemma_wallet_position_first(wallets.drop_first(), fp, i - 1);
    }
}

/// When no wallet matches, there is no position.
proof fn lemma_wallet_position_none(wallets: Seq<WalletConfigEntry>, fp: u32)
    requires
        forall|j: int| 0 <= j < wallets.len() ==> wallets[j].fingerprint != fp,
    ensures
        spec_wallet_position(wallets, fp) is None,
    decreases wallets.len(),
{
    if wallets.len() > 0 {
        lemma_wallet_position_none(wallets.drop_first(), fp);
    }
}

/// The wallets left after removing every entry with the given fingerprint.
pub open spec fn spec_without_fingerprint(wallets: Seq<WalletConfigEntry>, fp: u32) -> Seq<
    WalletConfigEntry,
>
    decreases wallets.len(),
{
    if wallets.len() == 0 {
        Seq::empty()
    } else {
        let rest = spec_without_fingerprint(wallets.drop_last(), fp);
        if wallets.last().fingerprint == fp {
            rest
        } else {
            rest.push(wallets.last())
        }
    }
}

/// The key-management service: the active wallet fingerprint and the list
/// of stored wallets. Persisting these to disk is the caller's concern.
#[derive(Debug)]
pub struct Sage {
    pub fingerprint: Option<u32>,
    pub wallets: Vec<WalletConfigEntry>,
}

impl Sage {
    /// A service with no active wallet and no stored wallets.
    pub fn new() -> (r: Sage)
        ensures
            r.fingerprint is None,
            r.wallets@.len() == 0,
    {
        Sage { fingerprint: None, wallets: Vec::new() }
    }

    /// Makes the given wallet the active one.
    pub fn login(&mut self, req: Login) -> (r: Result<LoginResponse, Error>)
        ensures
            r is Ok,
            final(self).fingerprint == Some(req.fingerprint),
            final(self).wallets == old(self).wallets,
    {
        self.fingerprint = Some(req.fingerprint);
        Ok(LoginResponse {  })
    }

    /// Clears the active wallet.
    pub fn logout(&mut self, _req: Logout) -> (r: Result<LogoutResponse, Error>)
        ensures
            r is Ok,
            final(self).fingerprint is None,
            final(self).wallets == old(self).wallets,
    {
        self.fingerprint = None;
        Ok(LogoutResponse {  })
    }

    /// Renames the first wallet with the requested fingerprint; a
    /// fingerprint with no wallet is rejected and changes nothing.
    pub fn rename_key(&mut self, req: RenameKey) -> (r: Result<RenameKeyResponse, Error>)
        ensures
            match spec_wallet_position(old(self).wallets@, req.fingerprint) {
                Some(i) => {
                    &&& r is Ok
                    &&& final(self).wallets@ == old(self).wallets@.update(
                        i,
                        (WalletConfigEntry {
                            name: req.name,
                            fingerprint: old(self).wallets@[i].fingerprint,
                            emoji: old(self).wallets@[i].emoji,
                            network: old(self).wallets@[i].network,
                        }),
                    )
                    &&& final(self).fingerprint == old(self).fingerprint
                },
                None => r == Result::<RenameKeyResponse, Error>::Err(Error::UnknownFingerprint)
                    && *final(self) == *old(self),
            },
    {
        let mut i: usize = 0;
        while i < self.wallets.len()
            invariant
                self == old(self),
                i <= self.wallets@.len(),
                forall|j: int| 0 <= j < i ==> self.wallets@[j].fingerprint != req.fingerprint,
            decreases self.wallets@.len() - i,
        {
            if self.wallets[i].fingerprint == req.fingerprint {
                proof {
                    lemma_wallet_position_first(self.wallets@, req.fingerprint, i as int);
                }
                let updated = WalletConfigEntry {
                    name: req.name,
                    fingerprint: self.wallets[i].fingerprint,
                    emoji: match &self.wallets[i].emoji {
                        Some(s) => Some(s.clone()),
                        None => None,
                    },
                    network: match &self.wallets[i].network {
                        Some(s) => Some(s.clone()),
                        None => None,
                    },
                };
                self.wallets[i] = updated;
                return Ok(RenameKeyResponse {  });
            }
            i = i + 1;
        }
        proof {
            lemma_wallet_position_none(self.wallets@, req.fingerprint);
        }
        Err(Error::UnknownFingerprint)
    }

    /// Sets the emoji of the first wallet with the requested fingerprint; a
    /// fingerprint with no wallet is rejected and changes nothing.
    pub fn set_wallet_emoji(&mut self, req: SetWalletEmoji) -> (r: Result<
        SetWalletEmojiResponse,
        Error,
    >)
        ensures
            match spec_wallet_position(old(self).wallets@, req.fingerprint) {
                Some(i) => {
                    &&& r is Ok
                    &&& final(self).wallets@ == old(self).wallets@.update(
                        i,
                        (WalletConfigEntry {
                            name: old(self).wallets@[i].name,
                            fingerprint: old(self).wallets@[i].fingerprint,
                            emoji: req.emoji,
                            network: old(self).wallets@[i].network,
                        }),
                    )
                    &&& final(self).fingerprint == old(self).fingerprint
                },
                None => r == Result::<SetWalletEmojiResponse, Error>::Err(
                    Error::UnknownFingerprint,
                ) && *final(self) == *old(self),
            },
    {
        let mut i: usize = 0;
        while i < self.wallets.len()
            invariant
                self == old(self),
                i <= self.wallets@.len(),
                forall|j: int| 0 <= j < i ==> self.wallets@[j].fingerprint != req.fingerprint,
            decreases self.wallets@.len() - i,
        {
            if self.wallets[i].fingerprint == req.fingerprint {
                proof {
                    lemma_wallet_position_first(self.wallets@, req.fingerprint, i as int);
                }
                let updated = WalletConfigEntry {
                    name: self.wallets[i].name.clone(),
                    fingerprint: self.wallets[i].fingerprint,
                    emoji: req.emoji,
                    network: match &self.wallets[i].network {
                        Some(s) => Some(s.clone()),
                        None => None,
                    },
                };
                self.wallets[i] = updated;
                return Ok(SetWalletEmojiResponse {  });
            }
            i = i + 1;
        }
        proof {
            lemma_wallet_position_none(self.wallets@, req.fingerprint);
        }
        Err(Error::UnknownFingerprint)
    }

    /// Forgets a key: removes every wallet with the fingerprint and clears
    /// the active wallet when it was the deleted one.
    pub fn delete_key(&mut self, req: DeleteKey) -> (r: Result<DeleteKeyResponse, Error>)
        ensures
            r is Ok,
            final(self).wallets@ == spec_without_fingerprint(old(self).wallets@, req.fingerprint),
            final(self).fingerprint == if old(self).fingerprint == Some(req.fingerprint) {
                Option::<u32>::None
            } else {
                old(self).fingerprint
            },
    {
        let ghost before = self.wallets@;
        let mut kept: Vec<WalletConfigEntry> = Vec::new();
        let mut i: usize = 0;
        while i < self.wallets.len()
            invariant
                self == old(self),
                before == self.wallets@,
                i <= self.wallets@.len(),
                kept@ == spec_without_fingerprint(before.take(i as int), req.fingerprint),
            decreases self.wallets@.len() - i,
        {
            let ghost kept_before = kept@;
            if self.wallets[i].fingerprint != req.fingerprint {
                kept.push(self.wallets[i].dup());
            }
            proof {
                assert(before.take(i + 1).drop_last() =~= before.take(i as int));
                assert(before.take(i + 1).last() == before[i as int]);
            }
            i = i + 1;
        }
        proof {
            assert(before.take(before.len() as int) =~= before);
        }
        self.wallets = kept;
        match self.fingerprint {
            Some(active) => {
                if active == req.fingerprint {
                    self.fingerprint = None;
                }
            },
            None => {
            },
        }
        Ok(DeleteKeyResponse {  })
    }

    /// Resynchronizes a wallet from scratch: the stored peak is always
    /// forgotten, so the next pass starts from the genesis boundary; stored
    /// coins and watched addresses are deleted only on request. Stores that
    /// live outside the sync engine (assets, files, offers, the mempool)
    /// belong to the persistence layer and are cleared there. The wallet
    /// stays logged in: the active fingerprint is restored after the wipe.
    pub fn resync(&mut self, req: Resync, store: &mut WalletStore) -> (r: Result<
        ResyncResponse,
        Error,
    >)
        requires
            old(store).wf(),
        ensures
            r is Ok,
            final(store).wf(),
            final(store).spec_peak() is None,
            req.delete_coins ==> final(store).coins() == Map::<
                Seq<u8>,
                crate::store::CoinStateView,
            >::empty() && final(store).owned() == Set::<Seq<u8>>::empty(),
            !req.delete_coins ==> final(store).coins() == old(store).coins()
                && final(store).owned() == old(store).owned(),
            req.delete_addresses ==> final(store).derivations() == Seq::<
                crate::store::DerivationView,
            >::empty(),
            !req.delete_addresses ==> final(store).derivations() == old(store).derivations(),
            final(self).fingerprint == old(self).fingerprint,
            final(self).wallets == old(self).wallets,
    {
        let login = match self.fingerprint {
            Some(active) => active == req.fingerprint,
            None => false,
        };
        if login {
            self.fingerprint = None;
        }

        store.clear_peak();
        if req.delete_coins {
            store.clear_coins();
        }
        if req.delete_addresses {
            store.clear_derivations();
        }

        if login {
            self.fingerprint = Some(req.fingerprint);
        }
        Ok(ResyncResponse {  })
    }

    /// Generates a fresh mnemonic phrase: 24 words from 32 bytes of
    /// entropy, or 12 words from 16.
    pub fn generate_mnemonic(&self, req: GenerateMnemonic) -> (r: Result<
        GenerateMnemonicResponse,
        Error,
    >)
        ensures
            r is Ok,
            r matches Ok(resp) ==> is_valid_mnemonic(resp.mnemonic@),
    {
        let count: usize = if req.use_24_words {
            32
        } else {
            16
        };
        let entropy = random_entropy(count);
        match mnemonic_from_entropy(&entropy) {
            Ok(mnemonic) => Ok(GenerateMnemonicResponse { mnemonic }),
            Err(e) => Err(e),
        }
    }

    /// Imports a key: decodes the key material, registers the wallet under
    /// the key's fingerprint, makes it active, and inserts the derivation
    /// records for indices up to `derivation_index` — the unhardened tree
    /// always, and the hardened tree too when a secret key is available, a
    /// bare public key being watch-only. Exactly the acceptable key strings
    /// import, and each inserted record is pinned to its key-tree position.
    pub fn import_key(&mut self, req: ImportKey, store: &mut WalletStore) -> (r: Result<
        ImportKeyResponse,
        Error,
    >)
        requires
            old(store).wf(),
        ensures
            final(store).wf(),
            old(store).derivations().is_prefix_of(final(store).derivations()),
            r is Ok <==> spec_key_acceptable(req.key@),
            r matches Err(e) ==> e == Error::InvalidKey,
            r matches Ok(resp) ==> {
                &&& final(self).fingerprint == Some(resp.fingerprint)
                &&& final(self).wallets@.len() == old(self).wallets@.len() + 1
                &&& final(self).wallets@.last().fingerprint == resp.fingerprint
                &&& final(self).wallets@.last().name == req.name
                &&& final(self).wallets@.last().emoji == req.emoji
                &&& final(self).wallets@.drop_last() == old(self).wallets@
                &&& resp.fingerprint == spec_fingerprint(spec_imported_master_pk(req.key@))
            },
            r is Ok ==> ({
                let n = req.derivation_index as int;
                let old_len = old(store).derivations().len();
                let intermediate = spec_unhardened_intermediate_pk(
                    spec_imported_master_pk(req.key@),
                );
                &&& final(store).derivations().len() == old_len + (
                if spec_import_has_secret(req.key@) {
                    2 * n
                } else {
                    n
                })
                &&& forall|j: int| 0 <= j < n ==> (#[trigger] final(store).derivations()[old_len
                    + j]) == spec_unhardened_record(intermediate, j as u32)
                &&& (spec_import_has_secret(req.key@) ==> ({
                    let hardened = spec_hardened_intermediate_sk(
                        spec_imported_master_sk(req.key@),
                    );
                    forall|j: int| 0 <= j < n ==> (#[trigger] final(store).derivations()[old_len
                        + n + j]) == spec_hardened_record(hardened, j as u32)
                }))
            }),
            r is Err ==> *final(self) == *old(self) && *final(store) == *old(store),
    {
        let material = match decode_key_material(&req.key) {
            Ok(material) => material,
            Err(e) => {
                return Err(e);
            },
        };
        proof {
            assert(material.master_pk@ == spec_imported_master_pk(req.key@));
            assert((material.master_sk is Some) == spec_import_has_secret(req.key@));
            assert(material.master_sk matches Some(k) ==> k@ == spec_imported_master_sk(
                req.key@,
            ));
        }

        let fp = match fingerprint(&material.master_pk) {
            Ok(fp) => fp,
            Err(_) => {
                return Err(Error::InvalidKey);
            },
        };

        self.wallets.push(
            WalletConfigEntry { name: req.name, fingerprint: fp, emoji: req.emoji, network: None },
        );
        self.fingerprint = Some(fp);

        let intermediate_pk = match unhardened_intermediate_pk(&material.master_pk) {
            Ok(key) => key,
            Err(_) => {
                return Err(Error::InvalidKey);
            },
        };

        let ghost old_len = old(store).derivations().len() as int;
        let mut index: u32 = 0;
        while index < req.derivation_index
            invariant
                store.wf(),
                old(store).derivations().is_prefix_of(store.derivations()),
                is_bls_pk(intermediate_pk@),
                intermediate_pk@ == spec_unhardened_intermediate_pk(
                    spec_imported_master_pk(req.key@),
                ),
                old_len == old(store).derivations().len(),
                index <= req.derivation_index,
                store.derivations().len() == old_len + index,
                forall|j: int| 0 <= j < index ==> (#[trigger] store.derivations()[old_len + j])
                    == spec_unhardened_record(intermediate_pk@, j as u32),
            decreases req.derivation_index - index,
        {
            let derived = match derive_p2(&intermediate_pk, index) {
                Ok(derived) => derived,
                Err(_) => {
                    return Err(Error::InvalidKey);
                },
            };
            store.insert_derivation(derived.p2_puzzle_hash, index, false, derived.synthetic_key);
            proof {
                assert(old(store).derivations().is_prefix_of(store.derivations())) by {
                    assert(store.derivations().subrange(
                        0,
                        old(store).derivations().len() as int,
                    ) =~= old(store).derivations());
                }
            }
            index = index + 1;
        }

        match &material.master_sk {
            Some(master_sk) => {
                let intermediate_sk = match hardened_intermediate_sk(master_sk) {
                    Ok(key) => key,
                    Err(_) => {
                        return Err(Error::InvalidKey);
                    },
                };
                let ghost n = req.derivation_index as int;
                let mut index: u32 = 0;
                while index < req.derivation_index
                    invariant
                        store.wf(),
                        old(store).derivations().is_prefix_of(store.derivations()),
                        is_bls_sk(intermediate_sk@),
                        intermediate_sk@ == spec_hardened_intermediate_sk(
                            spec_imported_master_sk(req.key@),
                        ),
                        old_len == old(store).derivations().len(),
                        n == req.derivation_index as int,
                        index <= req.derivation_index,
                        store.derivations().len() == old_len + n + index,
                        forall|j: int| 0 <= j < n ==> (#[trigger] store.derivations()[old_len
                            + j]) == spec_unhardened_record(
                            spec_unhardened_intermediate_pk(spec_imported_master_pk(req.key@)),
                            j as u32,
                        ),
                        forall|j: int| 0 <= j < index ==> (#[trigger] store.derivations()[old_len
                            + n + j]) == spec_hardened_record(intermediate_sk@, j as u32),
                    decreases req.derivation_index - index,
                {
                    let derived = match derive_hardened_p2(&intermediate_sk, index) {
                        Ok(derived) => derived,
                        Err(_) => {
                            return Err(Error::InvalidKey);
                        },
                    };
                    store.insert_derivation(
                        derived.p2_puzzle_hash,
                        index,
                        true,
                        derived.synthetic_key,
                    );
                    proof {
                        assert(old(store).derivations().is_prefix_of(store.derivations())) by {
                            assert(store.derivations().subrange(
                                0,
                                old(store).derivations().len() as int,
                            ) =~= old(store).derivations());
                        }
                    }
                    index = index + 1;
                }
            },
            None => {
            },
        }

        Ok(ImportKeyResponse { fingerprint: fp })
    }
}

} // verus!
