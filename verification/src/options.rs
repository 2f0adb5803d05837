use vstd::prelude::*;

verus! {

/// Tuning knobs for one synchronization manager. Durations are held as
/// whole milliseconds so the values stay plain integers.
#[derive(Debug, Clone, Copy, PartialEq, Eq, Structural)]
pub struct SyncOptions {
    pub target_peers: usize,
    pub discover_peers: bool,
    pub dns_batch_size: usize,
    pub connection_batch_size: usize,
    pub max_peer_age_seconds: u64,
    pub delta_sync: bool,
    pub puzzle_batch_size_per_peer: usize,
    pub timeouts: Timeouts,
    pub testing: bool,
}

/// Delays and timeouts for the sync manager's tasks, in milliseconds.
#[derive(Debug, Clone, Copy, PartialEq, Eq, Structural)]
pub struct Timeouts {
    pub sync_delay: u64,
    pub cat_delay: u64,
    pub nft_uri_delay: u64,
    pub puzzle_delay: u64,
    pub transaction_delay: u64,
    pub offer_delay: u64,
    pub blocktime_delay: u64,
    pub connection: u64,
    pub initial_peak: u64,
    pub dns: u64,
    pub introducer: u64,
}

impl Default for Timeouts {
    fn default() -> (r: Timeouts)
        ensures
            r.sync_delay == 1000,
            r.cat_delay == 3_600_000,
            r.nft_uri_delay == 500,
            r.puzzle_delay == 1000,
            r.transaction_delay == 1000,
            r.offer_delay == 5000,
            r.blocktime_delay == 1000,
            r.connection == 3000,
            r.initial_peak == 2000,
            r.dns == 3000,
            r.introducer == 10_000,
    {
        Timeouts {
            sync_delay: 1000,
            cat_delay: 3_600_000,
            nft_uri_delay: 500,
            puzzle_delay: 1000,
            transaction_delay: 1000,
            offer_delay: 5000,
            blocktime_delay: 1000,
            connection: 3000,
            initial_peak: 2000,
            dns: 3000,
            introducer: 10_000,
        }
    }
}

} // verus!
