use vstd::prelude::*;

use crate::ids::Hash32;

verus! {

/// A peer's network address, held as the raw address bits so that events
/// stay plain data.
#[derive(Debug, Clone, Copy, PartialEq, Eq, Structural)]
pub struct PeerAddr {
    /// Whether the address is IPv6; otherwise the low 32 bits hold an IPv4
    /// address.
    pub is_v6: bool,
    pub bits: u128,
}

/// The lifecycle of an offer tracked by the wallet.
#[derive(Debug, Clone, Copy, PartialEq, Eq, Structural)]
pub enum OfferStatus {
    Pending,
    Active,
    Completed,
    Cancelled,
    Expired,
}

/// A notification emitted by the sync engine. Delivery is best effort: a
/// full or closed channel drops the event rather than blocking the engine.
#[derive(Debug)]
pub enum SyncEvent {
    Start(PeerAddr),
    Stop,
    Subscribed,
    DerivationIndex { next_index: u32 },
    CoinsUpdated,
    TransactionUpdated { transaction_id: Hash32 },
    TransactionEnded { transaction_id: Hash32, error: Option<String>, success: bool },
    OfferUpdated { offer_id: Hash32, status: OfferStatus },
    PuzzleBatchSynced,
    CatInfo,
    DidInfo,
    NftData,
}

} // verus!
