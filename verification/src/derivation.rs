//! The key derivation engine: expands a deterministic sequence of address
//! candidates from an intermediate key, in index order, without skipping or
//! reordering indices.

use vstd::prelude::*;

use crate::bls::{
    derive_hardened_sk, derive_synthetic_pk, derive_synthetic_sk, derive_unhardened_pk, is_bls_pk,
    is_bls_sk, public_key_of, spec_hardened_child_sk, spec_pk_of_sk, spec_standard_puzzle_hash,
    spec_synthetic_pk, spec_synthetic_sk, spec_unhardened_child_pk, standard_puzzle_hash,
};
use crate::errors::WalletError;
use crate::ids::{Hash32, PublicKeyBytes, SecretKeyBytes};
use crate::store::DerivationView;

verus! {

/// The synthetic key at an unhardened index below an intermediate public key.
pub open spec fn spec_derived_synthetic_key(intermediate_pk: Seq<u8>, index: u32) -> Seq<u8> {
    spec_synthetic_pk(spec_unhardened_child_pk(intermediate_pk, index))
}

/// The puzzle hash watched at an unhardened index below an intermediate
/// public key: the standard puzzle curried with the synthetic key.
pub open spec fn spec_derived_puzzle_hash(intermediate_pk: Seq<u8>, index: u32) -> Seq<u8> {
    spec_standard_puzzle_hash(spec_derived_synthetic_key(intermediate_pk, index))
}

/// The synthetic public key at a hardened index below an intermediate secret
/// key.
pub open spec fn spec_derived_hardened_key(intermediate_sk: Seq<u8>, index: u32) -> Seq<u8> {
    spec_pk_of_sk(spec_synthetic_sk(spec_hardened_child_sk(intermediate_sk, index)))
}

/// The puzzle hash watched at a hardened index below an intermediate secret
/// key.
pub open spec fn spec_derived_hardened_puzzle_hash(intermediate_sk: Seq<u8>, index: u32) -> Seq<
    u8,
> {
    spec_standard_puzzle_hash(spec_derived_hardened_key(intermediate_sk, index))
}

/// The derivation record created at one unhardened index: the standard
/// puzzle hash of the synthetic key at that index under the unhardened
/// tree.
pub open spec fn spec_unhardened_record(intermediate_pk: Seq<u8>, index: u32) -> DerivationView {
    DerivationView {
        p2_puzzle_hash: spec_derived_puzzle_hash(intermediate_pk, index),
        derivation_index: index,
        is_hardened: false,
        synthetic_key: spec_derived_synthetic_key(intermediate_pk, index),
    }
}

/// The derivation record created at one hardened index: the standard puzzle
/// hash of the synthetic public key at that index under the hardened tree.
pub open spec fn spec_hardened_record(intermediate_sk: Seq<u8>, index: u32) -> DerivationView {
    DerivationView {
        p2_puzzle_hash: spec_derived_hardened_puzzle_hash(intermediate_sk, index),
        derivation_index: index,
        is_hardened: true,
        synthetic_key: spec_derived_hardened_key(intermediate_sk, index),
    }
}

/// One derived address candidate: the key-tree index, the synthetic key at
/// that index, and the puzzle hash it locks to.
#[derive(Debug)]
pub struct DerivedKey {
    pub index: u32,
    pub synthetic_key: PublicKeyBytes,
    pub p2_puzzle_hash: Hash32,
}

/// Derives the synthetic key and puzzle hash at one unhardened index.
pub fn derive_p2(intermediate_pk: &PublicKeyBytes, index: u32) -> (r: Result<
    DerivedKey,
    WalletError,
>)
    ensures
        r matches Err(e) ==> e == WalletError::InvalidKeyMaterial,
        is_bls_pk(intermediate_pk@) ==> r is Ok,
        r matches Ok(d) ==> {
            &&& d.index == index
            &&& d.synthetic_key@ == spec_derived_synthetic_key(intermediate_pk@, index)
            &&& d.p2_puzzle_hash@ == spec_derived_puzzle_hash(intermediate_pk@, index)
            &&& d.synthetic_key.wf()
            &&& d.p2_puzzle_hash.wf()
            &&& is_bls_pk(d.synthetic_key@)
        },
{
    let child = match derive_unhardened_pk(intermediate_pk, index) {
        Ok(child) => child,
        Err(e) => {
            return Err(e);
        },
    };
    let synthetic = match derive_synthetic_pk(&child) {
        Ok(synthetic) => synthetic,
        Err(e) => {
            return Err(e);
        },
    };
    let p2_puzzle_hash = match standard_puzzle_hash(&synthetic) {
        Ok(p2_puzzle_hash) => p2_puzzle_hash,
        Err(e) => {
            return Err(e);
        },
    };
    Ok(DerivedKey { index, synthetic_key: synthetic, p2_puzzle_hash })
}

/// Derives the synthetic public key and puzzle hash at one hardened index,
/// which needs the intermediate secret key.
pub fn derive_hardened_p2(intermediate_sk: &SecretKeyBytes, index: u32) -> (r: Result<
    DerivedKey,
    WalletError,
>)
    ensures
        r matches Err(e) ==> e == WalletError::InvalidKeyMaterial,
        is_bls_sk(intermediate_sk@) ==> r is Ok,
        r matches Ok(d) ==> {
            &&& d.index == index
            &&& d.synthetic_key@ == spec_derived_hardened_key(intermediate_sk@, index)
            &&& d.p2_puzzle_hash@ == spec_derived_hardened_puzzle_hash(intermediate_sk@, index)
            &&& d.synthetic_key.wf()
            &&& d.p2_puzzle_hash.wf()
            &&& is_bls_pk(d.synthetic_key@)
        },
{
    let child = match derive_hardened_sk(intermediate_sk, index) {
        Ok(child) => child,
        Err(e) => {
            return Err(e);
        },
    };
    let synthetic = match derive_synthetic_sk(&child) {
        Ok(synthetic) => synthetic,
        Err(e) => {
            return Err(e);
        },
    };
    let synthetic_key = match public_key_of(&synthetic) {
        Ok(synthetic_key) => synthetic_key,
        Err(e) => {
            return Err(e);
        },
    };
    let p2_puzzle_hash = match standard_puzzle_hash(&synthetic_key) {
        Ok(p2_puzzle_hash) => p2_puzzle_hash,
        Err(e) => {
            return Err(e);
        },
    };
    Ok(DerivedKey { index, synthetic_key, p2_puzzle_hash })
}

/// Derives the next `count` unhardened addresses starting at `start_index`,
/// in index order: element `i` of the batch is exactly index
/// `start_index + i`, so a batch never skips or reorders indices.
pub fn derive_batch(intermediate_pk: &PublicKeyBytes, start_index: u32, count: u32) -> (r: Result<
    Vec<DerivedKey>,
    WalletError,
>)
    requires
        start_index + count <= u32::MAX,
    ensures
        r matches Err(e) ==> e == WalletError::InvalidKeyMaterial,
        is_bls_pk(intermediate_pk@) ==> r is Ok,
        r matches Ok(v) ==> {
            &&& v@.len() == count
            &&& forall|i: int| #![trigger v@[i]] 0 <= i < count ==> {
                &&& v@[i].index == start_index + i
                &&& v@[i].synthetic_key@ == spec_derived_synthetic_key(
                    intermediate_pk@,
                    (start_index + i) as u32,
                )
                &&& v@[i].p2_puzzle_hash@ == spec_derived_puzzle_hash(
                    intermediate_pk@,
                    (start_index + i) as u32,
                )
                &&& v@[i].synthetic_key.wf()
                &&& v@[i].p2_puzzle_hash.wf()
            }
        },
{
    let mut out: Vec<DerivedKey> = Vec::new();
    let mut i: u32 = 0;
    while i < count
        invariant
            i <= count,
            start_index + count <= u32::MAX,
            out@.len() == i,
            forall|j: int| #![trigger out@[j]] 0 <= j < i ==> {
                &&& out@[j].index == start_index + j
                &&& out@[j].synthetic_key@ == spec_derived_synthetic_key(
                    intermediate_pk@,
                    (start_index + j) as u32,
                )
                &&& out@[j].p2_puzzle_hash@ == spec_derived_puzzle_hash(
                    intermediate_pk@,
                    (start_index + j) as u32,
                )
                &&& out@[j].synthetic_key.wf()
                &&& out@[j].p2_puzzle_hash.wf()
            },
        decreases count - i,
    {
        let derived = match derive_p2(intermediate_pk, start_index + i) {
            Ok(derived) => derived,
            Err(e) => {
                return Err(e);
            },
        };
        out.push(derived);
        i = i + 1;
    }
    Ok(out)
}

/// Derivation is deterministic and idempotent: deriving the same index from
/// the same intermediate key twice yields byte-identical puzzle hashes both
/// times, because the derived hash is a function of the key bytes and the
/// index alone.
pub proof fn lemma_derivation_deterministic(
    intermediate_pk: Seq<u8>,
    index: u32,
    first: Seq<u8>,
    second: Seq<u8>,
)
    requires
        first == spec_derived_puzzle_hash(intermediate_pk, index),
        second == spec_derived_puzzle_hash(intermediate_pk, index),
    ensures
        first == second,
{
}

} // verus!
