//! Trusted boundary to the protocol-level coin identity of `chia-protocol`.

use vstd::prelude::*;

use crate::ids::Hash32;
use crate::store::CoinRec;

verus! {

/// What `chia_protocol::Coin::coin_id` returns: the coin's content-addressed
/// identity, a function of its parent id, puzzle hash and amount alone.
pub uninterp spec fn spec_coin_id(parent: Seq<u8>, puzzle_hash: Seq<u8>, amount: u64) -> Seq<u8>;

/// Relies on `chia_protocol::Coin::coin_id`: a 32-byte digest of the coin's
/// parent id, puzzle hash and amount.
#[verifier::external_body]
pub fn coin_id(coin: &CoinRec) -> (r: Hash32)
    requires
        coin.wf(),
    ensures
        r@ == spec_coin_id(coin@.parent_coin_info, coin@.puzzle_hash, coin@.amount),
        r.wf(),
{
    let parent: [u8; 32] = coin.parent_coin_info.bytes.as_slice().try_into().expect(
        "well-formed hash",
    );
    let puzzle_hash: [u8; 32] = coin.puzzle_hash.bytes.as_slice().try_into().expect(
        "well-formed hash",
    );
    let coin = chia_protocol::Coin::new(parent.into(), puzzle_hash.into(), coin.amount);
    Hash32 { bytes: coin.coin_id().to_vec() }
}

} // verus!
