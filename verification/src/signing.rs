//! The signing engine: reconstructs the secret keys needed to satisfy a
//! transaction's required signatures and folds the signatures into one
//! aggregate.
//!
//! Extracting the required `(public key, message)` pairs from the coin
//! spends is the signature calculator's job, behind a trusted wrapper. The
//! selection of inputs with prior parent history, the strict/partial key
//! resolution policy, the re-derivation of each secret key and the order of
//! the signature fold are verified here.

use vstd::prelude::*;

use crate::bls::{
    aggregate_signatures, empty_signature, derive_hardened_sk, derive_synthetic_sk, derive_unhardened_sk,
    hardened_intermediate_sk, is_bls_pk, is_bls_sig, is_bls_sk, sign_message, spec_aggregate,
    spec_hardened_child_sk, spec_hardened_intermediate_sk, spec_sign, spec_synthetic_sk,
    spec_unhardened_child_sk, spec_unhardened_intermediate_sk, unhardened_intermediate_sk,
};
use crate::errors::WalletError;
use crate::ids::{all_zero, Hash32, PublicKeyBytes, SecretKeyBytes, SignatureBytes};
use crate::store::{spec_find_derivation, CoinRec, CoinRecView, DerivationView, WalletStore};
use crate::util::copy_bytes;

verus! {

// ---------------------------------------------------------------------------
// Library records
// ---------------------------------------------------------------------------

/// One coin spend: the coin, its revealed locking program and the solution,
/// both held as serialized program bytes.
#[derive(Debug)]
pub struct CoinSpendRec {
    pub coin: CoinRec,
    pub puzzle_reveal: Vec<u8>,
    pub solution: Vec<u8>,
}

/// The mathematical value of a [`CoinSpendRec`].
pub ghost struct CoinSpendView {
    pub coin: CoinRecView,
    pub puzzle_reveal: Seq<u8>,
    pub solution: Seq<u8>,
}

impl CoinSpendRec {
    pub open spec fn view(self) -> CoinSpendView {
        CoinSpendView { coin: self.coin@, puzzle_reveal: self.puzzle_reveal@, solution: self.solution@ }
    }

    pub open spec fn wf(self) -> bool {
        self.coin.wf()
    }

    pub fn dup(&self) -> (r: CoinSpendRec)
        ensures
            r@ == self@,
            r.wf() == self.wf(),
    {
        CoinSpendRec {
            coin: self.coin.dup(),
            puzzle_reveal: copy_bytes(&self.puzzle_reveal),
            solution: copy_bytes(&self.solution),
        }
    }
}

/// A set of coin spends with the aggregated signature collected so far.
#[derive(Debug)]
pub struct SpendBundleRec {
    pub coin_spends: Vec<CoinSpendRec>,
    pub aggregated_signature: SignatureBytes,
}

impl SpendBundleRec {
    /// A bundle of coin spends with no signatures collected yet: its
    /// aggregate is the identity signature.
    pub fn new(coin_spends: Vec<CoinSpendRec>) -> (r: SpendBundleRec)
        requires
            forall|i: int| 0 <= i < coin_spends@.len() ==> (#[trigger] coin_spends@[i]).wf(),
        ensures
            r.coin_spends == coin_spends,
            r.wf(),
            is_bls_sig(r.aggregated_signature@),
    {
        SpendBundleRec { coin_spends, aggregated_signature: empty_signature() }
    }

    pub open spec fn wf(self) -> bool {
        &&& forall|i: int| 0 <= i < self.coin_spends@.len() ==> (
        #[trigger] self.coin_spends@[i]).wf()
        &&& self.aggregated_signature.wf()
    }
}

/// One required BLS signature: the public key that must sign and the full
/// message to sign, with any domain separator already appended.
#[derive(Debug)]
pub struct RequiredBls {
    pub public_key: PublicKeyBytes,
    pub message: Vec<u8>,
}

/// The mathematical value of a [`RequiredBls`].
pub ghost struct RequiredBlsView {
    pub public_key: Seq<u8>,
    pub message: Seq<u8>,
}

impl RequiredBls {
    pub open spec fn view(self) -> RequiredBlsView {
        RequiredBlsView { public_key: self.public_key@, message: self.message@ }
    }

    pub fn dup(&self) -> (r: RequiredBls)
        ensures
            r@ == self@,
    {
        RequiredBls { public_key: self.public_key.dup(), message: copy_bytes(&self.message) }
    }
}

/// The mathematical values of a sequence of required signatures.
pub open spec fn required_views(required: Seq<RequiredBls>) -> Seq<RequiredBlsView> {
    required.map_values(|r: RequiredBls| r@)
}

// ---------------------------------------------------------------------------
// Input selection
// ---------------------------------------------------------------------------

/// The spends whose coin has prior parent history: a coin with an all-zero
/// parent id is being freshly created and needs no spend authorization.
pub open spec fn spec_spendable_inputs(spends: Seq<CoinSpendView>) -> Seq<CoinSpendView>
    decreases spends.len(),
{
    if spends.len() == 0 {
        Seq::empty()
    } else {
        let rest = spec_spendable_inputs(spends.drop_last());
        if all_zero(spends.last().coin.parent_coin_info) {
            rest
        } else {
            rest.push(spends.last())
        }
    }
}

/// The mathematical values of a sequence of coin spends.
pub open spec fn spend_views(spends: Seq<CoinSpendRec>) -> Seq<CoinSpendView> {
    spends.map_values(|cs: CoinSpendRec| cs@)
}

/// Selects the coin spends that require spend authorization: exactly those
/// whose parent coin id is not all zeros, in their original order.
pub fn spendable_inputs(spends: &Vec<CoinSpendRec>) -> (r: Vec<CoinSpendRec>)
    requires
        forall|i: int| 0 <= i < spends@.len() ==> (#[trigger] spends@[i]).wf(),
    ensures
        spend_views(r@) == spec_spendable_inputs(spend_views(spends@)),
        forall|i: int| 0 <= i < r@.len() ==> (#[trigger] r@[i]).wf(),
{
    let ghost views = spend_views(spends@);
    let mut out: Vec<CoinSpendRec> = Vec::new();
    let mut i: usize = 0;
    while i < spends.len()
        invariant
            i <= spends@.len(),
            views == spend_views(spends@),
            views.len() == spends@.len(),
            forall|j: int| 0 <= j < spends@.len() ==> (#[trigger] spends@[j]).wf(),
            spend_views(out@) == spec_spendable_inputs(views.take(i as int)),
            forall|j: int| 0 <= j < out@.len() ==> (#[trigger] out@[j]).wf(),
        decreases spends@.len() - i,
    {
        let ghost out_views_before = spend_views(out@);
        if !spends[i].coin.parent_coin_info.is_zero() {
            out.push(spends[i].dup());
            proof {
                assert(spend_views(out@) =~= out_views_before.push(views[i as int]));
            }
        }
        proof {
            assert(views.take(i + 1).drop_last() =~= views.take(i as int));
            assert(views.take(i + 1).last() == views[i as int]);
        }
        i = i + 1;
    }
    proof {
        assert(views.take(spends@.len() as int) =~= views);
    }
    out
}

// ---------------------------------------------------------------------------
// The trusted boundary to the signature calculator
// ---------------------------------------------------------------------------

/// What the signature calculator requires for a set of coin spends and a
/// chain seed: the BLS `(public key, message)` obligations, in order, with
/// each message's appended info and domain separator already attached — or
/// nothing, where the calculator rejects a spend. Program execution is
/// deterministic, so the result is a function of the spends and the seed
/// alone.
pub uninterp spec fn spec_required_bls(
    spends: Seq<CoinSpendView>,
    agg_sig_me: Seq<u8>,
) -> Option<Seq<RequiredBlsView>>;

#[verifier::external_type_specification]
#[verifier::external_body]
pub struct ExCoinSpend(chia_protocol::CoinSpend);

#[verifier::external_type_specification]
#[verifier::external_body]
pub struct ExRequiredSignature(chia_sdk_signer::RequiredSignature);

/// The packing half of [`required_bls_signatures`]: relies on
/// `chia_protocol::CoinSpend::new`, `Coin::new` and `Program::from` to put
/// each well-formed plain record into its protocol type, one for one.
#[verifier::external_body]
fn pack_spends(spends: Vec<CoinSpendRec>) -> Vec<chia_protocol::CoinSpend> {
    spends.into_iter().map(|spend| {
        let parent: [u8; 32] = spend.coin.parent_coin_info.bytes.as_slice().try_into().expect(
            "well-formed hash",
        );
        let puzzle_hash: [u8; 32] = spend.coin.puzzle_hash.bytes.as_slice().try_into().expect(
            "well-formed hash",
        );
        chia_protocol::CoinSpend::new(
            chia_protocol::Coin::new(parent.into(), puzzle_hash.into(), spend.coin.amount),
            chia_protocol::Program::from(spend.puzzle_reveal),
            chia_protocol::Program::from(spend.solution),
        )
    }).collect()
}

/// The extraction half of [`required_bls_signatures`]: relies on
/// `RequiredBlsSignature` of `chia-sdk-signer`, copying the public key bytes
/// and computing the full signed message with its appended info and domain
/// separator; non-BLS requirements are left to their own scheme.
#[verifier::external_body]
fn bls_requirement(required: chia_sdk_signer::RequiredSignature) -> Option<RequiredBls> {
    match required {
        chia_sdk_signer::RequiredSignature::Bls(required) => Some(RequiredBls {
            public_key: PublicKeyBytes { bytes: required.public_key.to_bytes().to_vec() },
            message: required.message(),
        }),
        chia_sdk_signer::RequiredSignature::Secp(_) => None,
    }
}

/// Relies on `chia_sdk_signer::RequiredSignature::from_coin_spends`, which
/// runs each spend's program and collects the signatures its conditions
/// require, and on `AggSigConstants::new` for the domain separators; the
/// helpers above pack the inputs and extract the BLS obligations, whose
/// public keys come from conditions through the validating key parser.
#[verifier::external_body]
fn required_bls_signatures(spends: Vec<CoinSpendRec>, agg_sig_me: &Hash32) -> (r: Result<
    Vec<RequiredBls>,
    WalletError,
>)
    requires
        forall|i: int| 0 <= i < spends@.len() ==> (#[trigger] spends@[i]).wf(),
        agg_sig_me.wf(),
    ensures
        r is Ok <==> spec_required_bls(spend_views(spends@), agg_sig_me@) is Some,
        r matches Err(e) ==> e == WalletError::Signer,
        r matches Ok(v) ==> Some(required_views(v@)) == spec_required_bls(
            spend_views(spends@),
            agg_sig_me@,
        ) && forall|i: int| #![trigger v@[i]] 0 <= i < v@.len() ==> v@[i].public_key.wf()
            && is_bls_pk(v@[i].public_key@),
{
    let data: [u8; 32] = agg_sig_me.bytes.as_slice().try_into().expect("well-formed hash");
    let constants = chia_sdk_signer::AggSigConstants::new(data.into());
    let mut allocator = clvmr::Allocator::new();
    let packed = pack_spends(spends);
    let raw = chia_sdk_signer::RequiredSignature::from_coin_spends(
        &mut allocator,
        &packed,
        &constants,
    ).map_err(|_| WalletError::Signer)?;
    Ok(raw.into_iter().filter_map(bls_requirement).collect())
}

// ---------------------------------------------------------------------------
// The verified signing core
// ---------------------------------------------------------------------------

/// The secret key that signs for a derivation record: the appropriate
/// hardened or unhardened intermediate tree walked to the record's index,
/// with the synthetic-key transform applied.
pub open spec fn spec_signing_key(master_sk: Seq<u8>, d: DerivationView) -> Seq<u8> {
    if d.is_hardened {
        spec_synthetic_sk(
            spec_hardened_child_sk(spec_hardened_intermediate_sk(master_sk), d.derivation_index),
        )
    } else {
        spec_synthetic_sk(
            spec_unhardened_child_sk(
                spec_unhardened_intermediate_sk(master_sk),
                d.derivation_index,
            ),
        )
    }
}

/// The aggregate signature after folding in, over a base signature, one
/// signature for every required entry whose public key has a derivation
/// record; entries without a record contribute nothing.
pub open spec fn spec_folded_signature(
    base: Seq<u8>,
    master_sk: Seq<u8>,
    derivs: Seq<DerivationView>,
    required: Seq<RequiredBlsView>,
) -> Seq<u8>
    decreases required.len(),
{
    if required.len() == 0 {
        base
    } else {
        let prefix = spec_folded_signature(base, master_sk, derivs, required.drop_last());
        match spec_find_derivation(derivs, required.last().public_key) {
            Some(d) => spec_aggregate(
                prefix,
                spec_sign(spec_signing_key(master_sk, d), required.last().message),
            ),
            None => prefix,
        }
    }
}

/// Every required public key has a derivation record in the store.
pub open spec fn spec_all_resolvable(
    derivs: Seq<DerivationView>,
    required: Seq<RequiredBlsView>,
) -> bool {
    forall|i: int| 0 <= i < required.len() ==> spec_find_derivation(
        derivs,
        (#[trigger] required[i]).public_key,
    ) is Some
}

/// Signs a set of required signatures against the wallet's derivation
/// records and folds them into the base aggregate.
///
/// In strict mode a required public key without a derivation record fails
/// the whole operation with `UnknownPublicKey`, and with no other error: an
/// unresolvable key means the wallet does not own the input and must not
/// silently produce an incomplete transaction. In partial mode such keys
/// are skipped, for multi-party co-signing flows. The result is exactly the
/// base signature with one contribution folded in per resolvable entry, in
/// order.
pub fn sign_requirements(
    store: &WalletStore,
    required: &Vec<RequiredBls>,
    master_sk: &SecretKeyBytes,
    base_signature: &SignatureBytes,
    partial: bool,
) -> (r: Result<SignatureBytes, WalletError>)
    requires
        store.wf(),
    ensures
        r matches Err(e) ==> (e == WalletError::UnknownPublicKey
            || e == WalletError::InvalidKeyMaterial),
        (r == Result::<SignatureBytes, WalletError>::Err(WalletError::UnknownPublicKey)) <==> (
        !partial && !spec_all_resolvable(store.derivations(), required_views(required@))),
        is_bls_sk(master_sk@) && is_bls_sig(base_signature@) && (partial || spec_all_resolvable(
            store.derivations(),
            required_views(required@),
        )) ==> r is Ok,
        r matches Ok(s) ==> s@ == spec_folded_signature(
            base_signature@,
            master_sk@,
            store.derivations(),
            required_views(required@),
        ) && (base_signature.wf() ==> s.wf()),
{
    let ghost views = required_views(required@);

    if !partial {
        let mut i: usize = 0;
        while i < required.len()
            invariant
                !partial,
                store.wf(),
                i <= required@.len(),
                views == required_views(required@),
                views.len() == required@.len(),
                forall|j: int| 0 <= j < i ==> spec_find_derivation(
                    store.derivations(),
                    (#[trigger] views[j]).public_key,
                ) is Some,
            decreases required@.len() - i,
        {
            if store.derivation(&required[i].public_key).is_none() {
                proof {
                    assert(spec_find_derivation(
                        store.derivations(),
                        views[i as int].public_key,
                    ) is None);
                    assert(!spec_all_resolvable(store.derivations(), views));
                }
                return Err(WalletError::UnknownPublicKey);
            }
            i = i + 1;
        }
        proof {
            assert(spec_all_resolvable(store.derivations(), views)) by {
                assert forall|j: int| 0 <= j < views.len() implies spec_find_derivation(
                    store.derivations(),
                    (#[trigger] views[j]).public_key,
                ) is Some by {}
            }
        }
    }

    let unhardened_intermediate = match unhardened_intermediate_sk(master_sk) {
        Ok(key) => key,
        Err(e) => {
            return Err(e);
        },
    };
    let hardened_intermediate = match hardened_intermediate_sk(master_sk) {
        Ok(key) => key,
        Err(e) => {
            return Err(e);
        },
    };

    let mut aggregate = base_signature.dup();
    let mut i: usize = 0;
    while i < required.len()
        invariant
            store.wf(),
            i <= required@.len(),
            views == required_views(required@),
            views.len() == required@.len(),
            partial || spec_all_resolvable(store.derivations(), views),
            is_bls_sk(master_sk@) ==> is_bls_sk(unhardened_intermediate@) && is_bls_sk(
                hardened_intermediate@,
            ),
            unhardened_intermediate@ == spec_unhardened_intermediate_sk(master_sk@),
            hardened_intermediate@ == spec_hardened_intermediate_sk(master_sk@),
            aggregate@ == spec_folded_signature(
                base_signature@,
                master_sk@,
                store.derivations(),
                views.take(i as int),
            ),
            base_signature.wf() ==> aggregate.wf(),
            is_bls_sig(base_signature@) ==> is_bls_sig(aggregate@),
        decreases required@.len() - i,
    {
        match store.derivation(&required[i].public_key) {
            Some(record) => {
                let child_result = if record.is_hardened {
                    derive_hardened_sk(&hardened_intermediate, record.derivation_index)
                } else {
                    derive_unhardened_sk(&unhardened_intermediate, record.derivation_index)
                };
                let child = match child_result {
                    Ok(key) => key,
                    Err(e) => {
                        return Err(e);
                    },
                };
                let signing_key = match derive_synthetic_sk(&child) {
                    Ok(key) => key,
                    Err(e) => {
                        return Err(e);
                    },
                };
                let signature = match sign_message(&signing_key, &required[i].message) {
                    Ok(signature) => signature,
                    Err(e) => {
                        return Err(e);
                    },
                };
                aggregate = match aggregate_signatures(&aggregate, &signature) {
                    Ok(aggregate) => aggregate,
                    Err(e) => {
                        return Err(e);
                    },
                };
            },
            None => {
            },
        }
        proof {
            assert(views.take(i + 1).drop_last() =~= views.take(i as int));
            assert(views.take(i + 1).last() == views[i as int]);
        }
        i = i + 1;
    }
    proof {
        assert(views.take(required@.len() as int) =~= views);
    }
    Ok(aggregate)
}

/// A wallet: the locally trusted store its operations read and write.
#[derive(Debug)]
pub struct Wallet {
    pub store: WalletStore,
}

impl Wallet {
    /// Produces a spend bundle identical to the given one except for its
    /// aggregated signature, which additionally satisfies every required
    /// signature derivable from inputs with prior parent history.
    ///
    /// The required signatures are exactly what the signature calculator
    /// reports for the spendable inputs under the chain's seed; each
    /// required public key is resolved to its derivation record, strictly
    /// or partially as selected, and the exact secret key is re-derived
    /// from the master key along the hardened or unhardened tree. The
    /// resulting aggregate is precisely the input aggregate with one
    /// contribution folded in per resolvable requirement, in order. No
    /// network or storage side effects.
    pub fn sign_transaction(
        &self,
        spend_bundle: SpendBundleRec,
        agg_sig_me: &Hash32,
        master_sk: SecretKeyBytes,
        partial: bool,
    ) -> (r: Result<SpendBundleRec, WalletError>)
        requires
            self.store.wf(),
            spend_bundle.wf(),
            agg_sig_me.wf(),
        ensures
            ({
                let required = spec_required_bls(
                    spec_spendable_inputs(spend_views(spend_bundle.coin_spends@)),
                    agg_sig_me@,
                );
                &&& ((r == Result::<SpendBundleRec, WalletError>::Err(WalletError::Signer)) <==> (
                required is None))
                &&& ((r == Result::<SpendBundleRec, WalletError>::Err(
                    WalletError::UnknownPublicKey,
                )) <==> (required matches Some(req) && !partial && !spec_all_resolvable(
                    self.store.derivations(),
                    req,
                )))
                &&& (r matches Ok(out) ==> {
                    &&& out.coin_spends == spend_bundle.coin_spends
                    &&& (required matches Some(req) && out.aggregated_signature@
                        == spec_folded_signature(
                        spend_bundle.aggregated_signature@,
                        master_sk@,
                        self.store.derivations(),
                        req,
                    ))
                    &&& out.aggregated_signature.wf()
                })
                &&& (is_bls_sk(master_sk@) && is_bls_sig(spend_bundle.aggregated_signature@) && (
                required matches Some(req) && (partial || spec_all_resolvable(
                    self.store.derivations(),
                    req,
                ))) ==> r is Ok)
            }),
    {
        let inputs = spendable_inputs(&spend_bundle.coin_spends);

        let required = match required_bls_signatures(inputs, agg_sig_me) {
            Ok(required) => required,
            Err(e) => {
                return Err(e);
            },
        };

        let aggregated_signature = match sign_requirements(
            &self.store,
            &required,
            &master_sk,
            &spend_bundle.aggregated_signature,
            partial,
        ) {
            Ok(aggregated_signature) => aggregated_signature,
            Err(e) => {
                return Err(e);
            },
        };

        Ok(SpendBundleRec { coin_spends: spend_bundle.coin_spends, aggregated_signature })
    }
}

} // verus!
