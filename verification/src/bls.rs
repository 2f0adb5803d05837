//! Trusted boundary to the BLS key arithmetic of the `chia-bls` and
//! `chia-puzzle-types` crates.
//!
//! Key derivation, the synthetic-key transform, the standard puzzle hash and
//! BLS signing are deterministic functions of key bytes and indices alone;
//! each is given a name here, and a thin wrapper whose contract speaks over
//! that name. Nothing else is assumed of the cryptography.

use vstd::prelude::*;

use crate::errors::WalletError;
use crate::ids::{Hash32, PublicKeyBytes, SecretKeyBytes, SignatureBytes};

use chia_bls::DerivableKey;
use chia_puzzle_types::DeriveSynthetic;

verus! {

/// The bytes parse as a valid BLS public key: `chia_bls::PublicKey::from_bytes`
/// accepts them.
pub uninterp spec fn is_bls_pk(bytes: Seq<u8>) -> bool;

/// The bytes parse as a valid BLS secret key: `chia_bls::SecretKey::from_bytes`
/// accepts them.
pub uninterp spec fn is_bls_sk(bytes: Seq<u8>) -> bool;

/// The bytes parse as a valid BLS signature: `chia_bls::Signature::from_bytes`
/// accepts them.
pub uninterp spec fn is_bls_sig(bytes: Seq<u8>) -> bool;

/// What `chia_bls::PublicKey::derive_unhardened` returns, as bytes.
pub uninterp spec fn spec_unhardened_child_pk(pk: Seq<u8>, index: u32) -> Seq<u8>;

/// What `chia_bls::SecretKey::derive_unhardened` returns, as bytes.
pub uninterp spec fn spec_unhardened_child_sk(sk: Seq<u8>, index: u32) -> Seq<u8>;

/// What `chia_bls::SecretKey::derive_hardened` returns, as bytes.
pub uninterp spec fn spec_hardened_child_sk(sk: Seq<u8>, index: u32) -> Seq<u8>;

/// What the synthetic-key transform `derive_synthetic` returns for a public
/// key, as bytes.
pub uninterp spec fn spec_synthetic_pk(pk: Seq<u8>) -> Seq<u8>;

/// What the synthetic-key transform `derive_synthetic` returns for a secret
/// key, as bytes.
pub uninterp spec fn spec_synthetic_sk(sk: Seq<u8>) -> Seq<u8>;

/// What `master_to_wallet_unhardened_intermediate` returns for a public key.
pub uninterp spec fn spec_unhardened_intermediate_pk(pk: Seq<u8>) -> Seq<u8>;

/// What `master_to_wallet_unhardened_intermediate` returns for a secret key.
pub uninterp spec fn spec_unhardened_intermediate_sk(sk: Seq<u8>) -> Seq<u8>;

/// What `master_to_wallet_hardened_intermediate` returns for a secret key.
pub uninterp spec fn spec_hardened_intermediate_sk(sk: Seq<u8>) -> Seq<u8>;

/// What `StandardArgs::curry_tree_hash` returns: the puzzle hash of the
/// standard locking program curried with a synthetic key.
pub uninterp spec fn spec_standard_puzzle_hash(pk: Seq<u8>) -> Seq<u8>;

/// What `chia_bls::SecretKey::public_key` returns, as bytes.
pub uninterp spec fn spec_pk_of_sk(sk: Seq<u8>) -> Seq<u8>;

/// What `chia_bls::SecretKey::from_seed` returns, as bytes.
pub uninterp spec fn spec_sk_from_seed(seed: Seq<u8>) -> Seq<u8>;

/// What `chia_bls::PublicKey::get_fingerprint` returns.
pub uninterp spec fn spec_fingerprint(pk: Seq<u8>) -> u32;

/// What `chia_bls::sign` returns, as bytes.
pub uninterp spec fn spec_sign(sk: Seq<u8>, msg: Seq<u8>) -> Seq<u8>;

/// What adding two BLS signatures returns, as bytes.
pub uninterp spec fn spec_aggregate(a: Seq<u8>, b: Seq<u8>) -> Seq<u8>;

/// Relies on `chia_bls::PublicKey::from_bytes`: it accepts exactly the
/// canonical 48-byte encodings of curve points, and `to_bytes` returns the
/// bytes it was parsed from.
#[verifier::external_body]
pub fn parse_public_key(bytes: &Vec<u8>) -> (r: Option<PublicKeyBytes>)
    ensures
        bytes@.len() == 48 ==> (r is Some <==> is_bls_pk(bytes@)),
        bytes@.len() != 48 ==> r is None,
        r matches Some(k) ==> k@ == bytes@ && k.wf() && is_bls_pk(k@),
{
    let array: [u8; 48] = bytes.as_slice().try_into().ok()?;
    let key = chia_bls::PublicKey::from_bytes(&array).ok()?;
    Some(PublicKeyBytes { bytes: key.to_bytes().to_vec() })
}

/// Relies on `chia_bls::SecretKey::from_bytes`: it accepts exactly the
/// 32-byte scalars below the group order, and `to_bytes` returns the bytes
/// it was parsed from.
#[verifier::external_body]
pub fn parse_secret_key(bytes: &Vec<u8>) -> (r: Option<SecretKeyBytes>)
    ensures
        bytes@.len() == 32 ==> (r is Some <==> is_bls_sk(bytes@)),
        bytes@.len() != 32 ==> r is None,
        r matches Some(k) ==> k@ == bytes@ && k.wf() && is_bls_sk(k@),
{
    let array: [u8; 32] = bytes.as_slice().try_into().ok()?;
    let key = chia_bls::SecretKey::from_bytes(&array).ok()?;
    Some(SecretKeyBytes { bytes: key.to_bytes().to_vec() })
}

/// Relies on `chia_bls::PublicKey::derive_unhardened`: the child key is a
/// function of the parent key bytes and the index alone, and is itself a
/// valid key.
#[verifier::external_body]
pub fn derive_unhardened_pk(pk: &PublicKeyBytes, index: u32) -> (r: Result<
    PublicKeyBytes,
    WalletError,
>)
    ensures
        r matches Err(e) ==> e == WalletError::InvalidKeyMaterial,
        is_bls_pk(pk@) ==> r is Ok,
        r matches Ok(k) ==> k@ == spec_unhardened_child_pk(pk@, index) && k.wf() && is_bls_pk(k@),
{
    let array: [u8; 48] = pk.bytes.as_slice().try_into().map_err(
        |_| WalletError::InvalidKeyMaterial,
    )?;
    let key = chia_bls::PublicKey::from_bytes(&array).map_err(
        |_| WalletError::InvalidKeyMaterial,
    )?;
    let child = key.derive_unhardened(index);
    Ok(PublicKeyBytes { bytes: child.to_bytes().to_vec() })
}

/// Relies on the synthetic-key transform `DeriveSynthetic::derive_synthetic`
/// on `chia_bls::PublicKey`: a function of the key bytes alone, yielding a
/// valid key.
#[verifier::external_body]
pub fn derive_synthetic_pk(pk: &PublicKeyBytes) -> (r: Result<PublicKeyBytes, WalletError>)
    ensures
        r matches Err(e) ==> e == WalletError::InvalidKeyMaterial,
        is_bls_pk(pk@) ==> r is Ok,
        r matches Ok(k) ==> k@ == spec_synthetic_pk(pk@) && k.wf() && is_bls_pk(k@),
{
    let array: [u8; 48] = pk.bytes.as_slice().try_into().map_err(
        |_| WalletError::InvalidKeyMaterial,
    )?;
    let key = chia_bls::PublicKey::from_bytes(&array).map_err(
        |_| WalletError::InvalidKeyMaterial,
    )?;
    let synthetic = key.derive_synthetic();
    Ok(PublicKeyBytes { bytes: synthetic.to_bytes().to_vec() })
}

/// Relies on `chia_puzzle_types::standard::StandardArgs::curry_tree_hash`:
/// the standard puzzle hash is a function of the synthetic key bytes alone,
/// and is 32 bytes long.
#[verifier::external_body]
pub fn standard_puzzle_hash(pk: &PublicKeyBytes) -> (r: Result<Hash32, WalletError>)
    ensures
        r matches Err(e) ==> e == WalletError::InvalidKeyMaterial,
        is_bls_pk(pk@) ==> r is Ok,
        r matches Ok(h) ==> h@ == spec_standard_puzzle_hash(pk@) && h.wf(),
{
    let array: [u8; 48] = pk.bytes.as_slice().try_into().map_err(
        |_| WalletError::InvalidKeyMaterial,
    )?;
    let key = chia_bls::PublicKey::from_bytes(&array).map_err(
        |_| WalletError::InvalidKeyMaterial,
    )?;
    let hash = chia_puzzle_types::standard::StandardArgs::curry_tree_hash(key);
    Ok(Hash32 { bytes: hash.to_bytes().to_vec() })
}

/// Relies on `chia_bls::master_to_wallet_unhardened_intermediate` on
/// `PublicKey`: a function of the key bytes alone, yielding a valid key.
#[verifier::external_body]
pub fn unhardened_intermediate_pk(pk: &PublicKeyBytes) -> (r: Result<PublicKeyBytes, WalletError>)
    ensures
        r matches Err(e) ==> e == WalletError::InvalidKeyMaterial,
        is_bls_pk(pk@) ==> r is Ok,
        r matches Ok(k) ==> k@ == spec_unhardened_intermediate_pk(pk@) && k.wf() && is_bls_pk(k@),
{
    let array: [u8; 48] = pk.bytes.as_slice().try_into().map_err(
        |_| WalletError::InvalidKeyMaterial,
    )?;
    let key = chia_bls::PublicKey::from_bytes(&array).map_err(
        |_| WalletError::InvalidKeyMaterial,
    )?;
    let inter = chia_bls::master_to_wallet_unhardened_intermediate(&key);
    Ok(PublicKeyBytes { bytes: inter.to_bytes().to_vec() })
}

/// Relies on `chia_bls::master_to_wallet_unhardened_intermediate` on
/// `SecretKey`: a function of the key bytes alone, yielding a valid key.
#[verifier::external_body]
pub fn unhardened_intermediate_sk(sk: &SecretKeyBytes) -> (r: Result<SecretKeyBytes, WalletError>)
    ensures
        r matches Err(e) ==> e == WalletError::InvalidKeyMaterial,
        is_bls_sk(sk@) ==> r is Ok,
        r matches Ok(k) ==> k@ == spec_unhardened_intermediate_sk(sk@) && k.wf() && is_bls_sk(k@),
{
    let array: [u8; 32] = sk.bytes.as_slice().try_into().map_err(
        |_| WalletError::InvalidKeyMaterial,
    )?;
    let key = chia_bls::SecretKey::from_bytes(&array).map_err(
        |_| WalletError::InvalidKeyMaterial,
    )?;
    let inter = chia_bls::master_to_wallet_unhardened_intermediate(&key);
    Ok(SecretKeyBytes { bytes: inter.to_bytes().to_vec() })
}

/// Relies on `chia_bls::master_to_wallet_hardened_intermediate`: a function
/// of the key bytes alone, yielding a valid key.
#[verifier::external_body]
pub fn hardened_intermediate_sk(sk: &SecretKeyBytes) -> (r: Result<SecretKeyBytes, WalletError>)
    ensures
        r matches Err(e) ==> e == WalletError::InvalidKeyMaterial,
        is_bls_sk(sk@) ==> r is Ok,
        r matches Ok(k) ==> k@ == spec_hardened_intermediate_sk(sk@) && k.wf() && is_bls_sk(k@),
{
    let array: [u8; 32] = sk.bytes.as_slice().try_into().map_err(
        |_| WalletError::InvalidKeyMaterial,
    )?;
    let key = chia_bls::SecretKey::from_bytes(&array).map_err(
        |_| WalletError::InvalidKeyMaterial,
    )?;
    let inter = chia_bls::master_to_wallet_hardened_intermediate(&key);
    Ok(SecretKeyBytes { bytes: inter.to_bytes().to_vec() })
}

/// Relies on `chia_bls::SecretKey::derive_unhardened`: a function of the key
/// bytes and the index alone, yielding a valid key.
#[verifier::external_body]
pub fn derive_unhardened_sk(sk: &SecretKeyBytes, index: u32) -> (r: Result<
    SecretKeyBytes,
    WalletError,
>)
    ensures
        r matches Err(e) ==> e == WalletError::InvalidKeyMaterial,
        is_bls_sk(sk@) ==> r is Ok,
        r matches Ok(k) ==> k@ == spec_unhardened_child_sk(sk@, index) && k.wf() && is_bls_sk(k@),
{
    let array: [u8; 32] = sk.bytes.as_slice().try_into().map_err(
        |_| WalletError::InvalidKeyMaterial,
    )?;
    let key = chia_bls::SecretKey::from_bytes(&array).map_err(
        |_| WalletError::InvalidKeyMaterial,
    )?;
    let child = key.derive_unhardened(index);
    Ok(SecretKeyBytes { bytes: child.to_bytes().to_vec() })
}

/// Relies on `chia_bls::SecretKey::derive_hardened`: a function of the key
/// bytes and the index alone, yielding a valid key.
#[verifier::external_body]
pub fn derive_hardened_sk(sk: &SecretKeyBytes, index: u32) -> (r: Result<
    SecretKeyBytes,
    WalletError,
>)
    ensures
        r matches Err(e) ==> e == WalletError::InvalidKeyMaterial,
        is_bls_sk(sk@) ==> r is Ok,
        r matches Ok(k) ==> k@ == spec_hardened_child_sk(sk@, index) && k.wf() && is_bls_sk(k@),
{
    let array: [u8; 32] = sk.bytes.as_slice().try_into().map_err(
        |_| WalletError::InvalidKeyMaterial,
    )?;
    let key = chia_bls::SecretKey::from_bytes(&array).map_err(
        |_| WalletError::InvalidKeyMaterial,
    )?;
    let child = key.derive_hardened(index);
    Ok(SecretKeyBytes { bytes: child.to_bytes().to_vec() })
}

/// Relies on the synthetic-key transform `DeriveSynthetic::derive_synthetic`
/// on `chia_bls::SecretKey`: a function of the key bytes alone, yielding a
/// valid key.
#[verifier::external_body]
pub fn derive_synthetic_sk(sk: &SecretKeyBytes) -> (r: Result<SecretKeyBytes, WalletError>)
    ensures
        r matches Err(e) ==> e == WalletError::InvalidKeyMaterial,
        is_bls_sk(sk@) ==> r is Ok,
        r matches Ok(k) ==> k@ == spec_synthetic_sk(sk@) && k.wf() && is_bls_sk(k@),
{
    let array: [u8; 32] = sk.bytes.as_slice().try_into().map_err(
        |_| WalletError::InvalidKeyMaterial,
    )?;
    let key = chia_bls::SecretKey::from_bytes(&array).map_err(
        |_| WalletError::InvalidKeyMaterial,
    )?;
    let synthetic = key.derive_synthetic();
    Ok(SecretKeyBytes { bytes: synthetic.to_bytes().to_vec() })
}

/// Relies on `chia_bls::SecretKey::public_key`: a function of the secret key
/// bytes alone, yielding a valid public key.
#[verifier::external_body]
pub fn public_key_of(sk: &SecretKeyBytes) -> (r: Result<PublicKeyBytes, WalletError>)
    ensures
        r matches Err(e) ==> e == WalletError::InvalidKeyMaterial,
        is_bls_sk(sk@) ==> r is Ok,
        r matches Ok(k) ==> k@ == spec_pk_of_sk(sk@) && k.wf() && is_bls_pk(k@),
{
    let array: [u8; 32] = sk.bytes.as_slice().try_into().map_err(
        |_| WalletError::InvalidKeyMaterial,
    )?;
    let key = chia_bls::SecretKey::from_bytes(&array).map_err(
        |_| WalletError::InvalidKeyMaterial,
    )?;
    Ok(PublicKeyBytes { bytes: key.public_key().to_bytes().to_vec() })
}

/// Relies on `chia_bls::SecretKey::from_seed`: a function of the seed bytes
/// alone, yielding a valid key. It panics on seeds shorter than 32 bytes,
/// which the precondition rules out.
#[verifier::external_body]
pub fn secret_key_from_seed(seed: &Vec<u8>) -> (r: SecretKeyBytes)
    requires
        seed@.len() >= 32,
    ensures
        r@ == spec_sk_from_seed(seed@),
        r.wf(),
        is_bls_sk(r@),
{
    let key = chia_bls::SecretKey::from_seed(seed.as_slice());
    SecretKeyBytes { bytes: key.to_bytes().to_vec() }
}

/// Relies on `chia_bls::PublicKey::get_fingerprint`: a function of the key
/// bytes alone.
#[verifier::external_body]
pub fn fingerprint(pk: &PublicKeyBytes) -> (r: Result<u32, WalletError>)
    ensures
        r matches Err(e) ==> e == WalletError::InvalidKeyMaterial,
        is_bls_pk(pk@) ==> r is Ok,
        r matches Ok(f) ==> f == spec_fingerprint(pk@),
{
    let array: [u8; 48] = pk.bytes.as_slice().try_into().map_err(
        |_| WalletError::InvalidKeyMaterial,
    )?;
    let key = chia_bls::PublicKey::from_bytes(&array).map_err(
        |_| WalletError::InvalidKeyMaterial,
    )?;
    Ok(key.get_fingerprint())
}

/// Relies on `chia_bls::sign`: the signature is a function of the secret key
/// bytes and the message alone, and is a valid signature.
#[verifier::external_body]
pub fn sign_message(sk: &SecretKeyBytes, msg: &Vec<u8>) -> (r: Result<SignatureBytes, WalletError>)
    ensures
        r matches Err(e) ==> e == WalletError::InvalidKeyMaterial,
        is_bls_sk(sk@) ==> r is Ok,
        r matches Ok(s) ==> s@ == spec_sign(sk@, msg@) && s.wf() && is_bls_sig(s@),
{
    let array: [u8; 32] = sk.bytes.as_slice().try_into().map_err(
        |_| WalletError::InvalidKeyMaterial,
    )?;
    let key = chia_bls::SecretKey::from_bytes(&array).map_err(
        |_| WalletError::InvalidKeyMaterial,
    )?;
    let signature = chia_bls::sign(&key, msg.as_slice());
    Ok(SignatureBytes { bytes: signature.to_bytes().to_vec() })
}

/// Relies on the additive combination of `chia_bls::Signature`: the
/// aggregate is a function of the two signatures' bytes alone, and is a
/// valid signature.
#[verifier::external_body]
pub fn aggregate_signatures(a: &SignatureBytes, b: &SignatureBytes) -> (r: Result<
    SignatureBytes,
    WalletError,
>)
    ensures
        r matches Err(e) ==> e == WalletError::InvalidKeyMaterial,
        is_bls_sig(a@) && is_bls_sig(b@) ==> r is Ok,
        r matches Ok(s) ==> s@ == spec_aggregate(a@, b@) && s.wf() && is_bls_sig(s@),
{
    let left: [u8; 96] = a.bytes.as_slice().try_into().map_err(
        |_| WalletError::InvalidKeyMaterial,
    )?;
    let right: [u8; 96] = b.bytes.as_slice().try_into().map_err(
        |_| WalletError::InvalidKeyMaterial,
    )?;
    let left = chia_bls::Signature::from_bytes(&left).map_err(
        |_| WalletError::InvalidKeyMaterial,
    )?;
    let right = chia_bls::Signature::from_bytes(&right).map_err(
        |_| WalletError::InvalidKeyMaterial,
    )?;
    let sum = &left + &right;
    Ok(SignatureBytes { bytes: sum.to_bytes().to_vec() })
}

/// Relies on `chia_bls::Signature::default`: the identity element, a valid
/// signature to fold further signatures into.
#[verifier::external_body]
pub fn empty_signature() -> (r: SignatureBytes)
    ensures
        r.wf(),
        is_bls_sig(r@),
{
    let signature = chia_bls::Signature::default();
    SignatureBytes { bytes: signature.to_bytes().to_vec() }
}

} // verus!
