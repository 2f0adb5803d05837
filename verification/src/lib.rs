//! Light-client synchronization core for a UTXO-style blockchain wallet.
//!
//! The crate keeps a locally consistent view of coin ownership and derived-key
//! state by ingesting coin-state pages from untrusted peers, expanding the
//! watched address set through deterministic key derivation, classifying
//! on-chain locking programs into semantic coin kinds, and reconstructing the
//! secret keys needed to satisfy a transaction's required signatures.

pub mod api;
pub mod assets;
pub mod bls;
pub mod chain;
pub mod classify;
pub mod derivation;
pub mod errors;
pub mod events;
pub mod ids;
pub mod options;
pub mod registry;
pub mod sage;
pub mod signing;
pub mod store;
pub mod sync;
pub mod util;
