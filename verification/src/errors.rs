use vstd::prelude::*;

verus! {

/// Failure of one sync session against one peer.
#[derive(Debug, Clone, Copy, PartialEq, Eq, Structural)]
pub enum SyncError {
    /// A peer request did not answer within the timeout; the whole sync
    /// attempt against this peer is aborted.
    Timeout,
    /// The peer rejected the subscription because it cannot serve more
    /// watched addresses; fatal for this peer, another must be used.
    SubscriptionLimit,
    /// The peer reported that the cursor's header is no longer on its
    /// canonical chain; surfaced as its own kind rather than handled.
    Reorg,
}

/// Failure of a classification attempt over a serialized locking program.
#[derive(Debug, Clone, Copy, PartialEq, Eq, Structural)]
pub enum ParseError {
    /// The serialized program could not be allocated into the evaluator.
    AllocatePuzzle,
    /// Structured template data could not be serialized back out.
    Serialize,
}

/// Failure of a wallet operation.
#[derive(Debug, Clone, Copy, PartialEq, Eq, Structural)]
pub enum WalletError {
    /// A sync session failed.
    Sync(SyncError),
    /// A required signature names a public key with no derivation record,
    /// while signing in strict mode.
    UnknownPublicKey,
    /// The signature calculator rejected a coin spend.
    Signer,
    /// Key bytes did not parse as a valid BLS key.
    InvalidKeyMaterial,
}

/// Failure of a storage-row decoding step.
#[derive(Debug, Clone, Copy, PartialEq, Eq, Structural)]
pub enum DatabaseError {
    /// Precision was lost while casting an integer column.
    PrecisionLost,
    /// A byte column has the wrong length: the actual and expected lengths.
    InvalidLength(usize, usize),
    /// An integer column does not encode any variant of its enum.
    InvalidEnumVariant,
    /// An integer column does not encode any offer status.
    InvalidOfferStatus(i64),
}

/// Failure of a key-management request.
#[derive(Debug, Clone, Copy, PartialEq, Eq, Structural)]
pub enum Error {
    /// The request names a fingerprint with no matching wallet.
    UnknownFingerprint,
    /// The key is neither valid hex key material nor a valid mnemonic.
    InvalidKey,
}

} // verus!
