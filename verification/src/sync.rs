//! The puzzle-state sync loop and the sync orchestrator.
//!
//! A sync session pulls coin-state pages for a batch of watched puzzle
//! hashes from one untrusted peer, ingesting each page into the store as one
//! atomic step before the cursor advances. The orchestrator drives one full
//! pass for a wallet: it syncs the known watched addresses in batches,
//! expands the watched set through key derivation while coin activity keeps
//! appearing, and finally persists the best observed peak, never moving it
//! backwards.

use vstd::prelude::*;

use crate::chain::{coin_id, spec_coin_id};
use crate::bls::is_bls_pk;
use crate::derivation::{
    derive_batch, spec_derived_puzzle_hash, spec_derived_synthetic_key, spec_unhardened_record,
};
use crate::errors::{SyncError, WalletError};
use crate::events::SyncEvent;
use crate::ids::{Hash32, PublicKeyBytes};
use crate::registry::PeerState;
use crate::store::{
    spec_is_watched, CoinStateRec, CoinStateView, DerivationView, WalletStore,
};

verus! {

/// Addresses are derived and synced in batches of this many.
pub const BATCH_SIZE: usize = 1000;

// ---------------------------------------------------------------------------
// Peer responses
// ---------------------------------------------------------------------------

/// Why a peer rejected a coin-state request.
#[derive(Debug, Clone, Copy, PartialEq, Eq, Structural)]
pub enum RejectReason {
    /// The peer cannot serve more watched addresses; fatal for this peer.
    ExceededSubscriptionLimit,
    /// The cursor's header hash is no longer on the peer's canonical chain.
    Reorg,
}

/// One page of coin-state updates reported by a peer.
#[derive(Debug)]
pub struct CoinStatePage {
    pub coin_states: Vec<CoinStateRec>,
    /// The height the page is consistent up to; the next cursor.
    pub height: u32,
    /// The header hash at that height; the next cursor.
    pub header_hash: Hash32,
    /// Whether the peer has no further pages for this batch.
    pub is_finished: bool,
}

impl CoinStatePage {
    pub open spec fn wf(self) -> bool {
        &&& self.header_hash.wf()
        &&& forall|i: int| 0 <= i < self.coin_states@.len() ==> (
        #[trigger] self.coin_states@[i]).wf()
    }

    /// Whether every hash of the page has its proper length.
    pub fn is_well_formed(&self) -> (r: bool)
        ensures
            r == self.wf(),
    {
        if !self.header_hash.is_well_formed() {
            return false;
        }
        let mut i: usize = 0;
        while i < self.coin_states.len()
            invariant
                i <= self.coin_states@.len(),
                forall|j: int| 0 <= j < i ==> (#[trigger] self.coin_states@[j]).wf(),
            decreases self.coin_states@.len() - i,
        {
            let state = &self.coin_states[i];
            if !(state.coin.parent_coin_info.is_well_formed()
                && state.coin.puzzle_hash.is_well_formed()) {
                return false;
            }
            i = i + 1;
        }
        true
    }

    /// The page's reported coin states, as mathematical values.
    pub open spec fn entries(self) -> Seq<CoinStateView> {
        self.coin_states@.map_values(|e: CoinStateRec| e@)
    }
}

/// The outcome of one coin-state request, as the peer driver hands it back.
/// A transport failure that kept any answer from arriving within the request
/// timeout is a timeout.
#[derive(Debug)]
pub enum PeerResponse {
    Page(CoinStatePage),
    Rejection(RejectReason),
    Timeout,
}

impl PeerResponse {
    pub open spec fn wf(self) -> bool {
        self matches PeerResponse::Page(page) ==> page.wf()
    }
}

/// A source of coin-state pages: one connected peer. The peer is untrusted,
/// so nothing is assumed of its responses; the sync loop handles every
/// outcome.
pub trait PeerSource {
    /// Requests coin-state updates for the given puzzle hashes since the
    /// cursor, subscribing to future updates for them.
    fn request_puzzle_state(
        &mut self,
        puzzle_hashes: &Vec<Hash32>,
        prev_height: Option<u32>,
        prev_header_hash: &Hash32,
        subscribe: bool,
    ) -> (r: PeerResponse)
        ensures
            r.wf(),
    ;
}

/// A synthetic peer that replays a fixed script of responses, in order, and
/// answers every request past the end of the script, or any malformed
/// scripted response, with a timeout.
#[derive(Debug)]
pub struct ScriptedPeer {
    responses: Vec<PeerResponse>,
}

impl ScriptedPeer {
    pub closed spec fn spec_remaining(self) -> Seq<PeerResponse> {
        self.responses@
    }

    pub fn new(responses: Vec<PeerResponse>) -> (r: ScriptedPeer)
        ensures
            r.spec_remaining() == responses@,
    {
        ScriptedPeer { responses }
    }

    /// How many scripted responses have not been served yet.
    pub fn remaining(&self) -> (r: usize)
        ensures
            r == self.spec_remaining().len(),
    {
        self.responses.len()
    }
}

impl PeerSource for ScriptedPeer {
    fn request_puzzle_state(
        &mut self,
        puzzle_hashes: &Vec<Hash32>,
        prev_height: Option<u32>,
        prev_header_hash: &Hash32,
        subscribe: bool,
    ) -> (r: PeerResponse) {
        if self.responses.len() > 0 {
            let response = self.responses.remove(0);
            let ok = match &response {
                PeerResponse::Page(page) => page.is_well_formed(),
                PeerResponse::Rejection(_) => true,
                PeerResponse::Timeout => true,
            };
            if ok {
                response
            } else {
                PeerResponse::Timeout
            }
        } else {
            PeerResponse::Timeout
        }
    }
}

// ---------------------------------------------------------------------------
// Page ingestion, as a mathematical function
// ---------------------------------------------------------------------------

/// The coin id of a reported coin state.
pub open spec fn entry_coin_id(e: CoinStateView) -> Seq<u8> {
    spec_coin_id(e.coin.parent_coin_info, e.coin.puzzle_hash, e.coin.amount)
}

/// The map a page's entries add to the store: each entry keyed by its coin
/// id, a later entry with the same id winning.
pub open spec fn page_coins_map(entries: Seq<CoinStateView>) -> Map<Seq<u8>, CoinStateView>
    decreases entries.len(),
{
    if entries.len() == 0 {
        Map::empty()
    } else {
        page_coins_map(entries.drop_last()).insert(
            entry_coin_id(entries.last()),
            entries.last(),
        )
    }
}

/// The coin ids of a page's entries whose puzzle hash the wallet watches:
/// the coins the page marks as wallet-owned.
pub open spec fn page_watched_ids(derivs: Seq<DerivationView>, entries: Seq<CoinStateView>) -> Set<
    Seq<u8>,
>
    decreases entries.len(),
{
    if entries.len() == 0 {
        Set::empty()
    } else {
        let rest = page_watched_ids(derivs, entries.drop_last());
        if spec_is_watched(derivs, entries.last().coin.puzzle_hash) {
            rest.insert(entry_coin_id(entries.last()))
        } else {
            rest
        }
    }
}

/// Inserting into the right operand of a right-preferring union is the same
/// as inserting into the union.
proof fn lemma_union_insert(
    m: Map<Seq<u8>, CoinStateView>,
    b: Map<Seq<u8>, CoinStateView>,
    k: Seq<u8>,
    v: CoinStateView,
)
    ensures
        m.union_prefer_right(b).insert(k, v) =~= m.union_prefer_right(b.insert(k, v)),
{
}

/// Inserting into the right operand of a set union is the same as inserting
/// into the union.
proof fn lemma_set_union_insert(a: Set<Seq<u8>>, b: Set<Seq<u8>>, k: Seq<u8>)
    ensures
        a.union(b).insert(k) =~= a.union(b.insert(k)),
{
}

/// Re-ingesting an identical coin-state page is a no-op: the stored coins
/// and the owned set after applying a page twice equal those after applying
/// it once.
pub proof fn lemma_page_ingestion_idempotent(
    coins: Map<Seq<u8>, CoinStateView>,
    owned: Set<Seq<u8>>,
    derivs: Seq<DerivationView>,
    entries: Seq<CoinStateView>,
)
    ensures
        coins.union_prefer_right(page_coins_map(entries)).union_prefer_right(
            page_coins_map(entries),
        ) == coins.union_prefer_right(page_coins_map(entries)),
        owned.union(page_watched_ids(derivs, entries)).union(page_watched_ids(derivs, entries))
            == owned.union(page_watched_ids(derivs, entries)),
{
    let pm = page_coins_map(entries);
    let ws = page_watched_ids(derivs, entries);
    assert(coins.union_prefer_right(pm).union_prefer_right(pm) =~= coins.union_prefer_right(pm));
    assert(owned.union(ws).union(ws) =~= owned.union(ws));
}

/// Ingests one page into the store: every reported coin state is stored
/// under its coin id, and every reported coin whose puzzle hash the wallet
/// watches is recorded as wallet-owned. The watched set, like the peak, is
/// left untouched. Returns whether the page reported any coin state at all.
pub fn apply_page(store: &mut WalletStore, page: &CoinStatePage) -> (found: bool)
    requires
        old(store).wf(),
        page.wf(),
    ensures
        final(store).wf(),
        final(store).coins() == old(store).coins().union_prefer_right(
            page_coins_map(page.entries()),
        ),
        final(store).owned() == old(store).owned().union(
            page_watched_ids(old(store).derivations(), page.entries()),
        ),
        final(store).derivations() == old(store).derivations(),
        final(store).spec_peak() == old(store).spec_peak(),
        found == (page.coin_states@.len() > 0),
{
    let ghost entries = page.entries();
    let mut found = false;
    let mut i: usize = 0;
    while i < page.coin_states.len()
        invariant
            page.wf(),
            entries == page.entries(),
            i <= page.coin_states@.len(),
            entries.len() == page.coin_states@.len(),
            store.wf(),
            store.coins() == old(store).coins().union_prefer_right(
                page_coins_map(entries.take(i as int)),
            ),
            store.owned() == old(store).owned().union(
                page_watched_ids(old(store).derivations(), entries.take(i as int)),
            ),
            store.derivations() == old(store).derivations(),
            store.spec_peak() == old(store).spec_peak(),
            found == (i > 0),
        decreases page.coin_states@.len() - i,
    {
        found = true;
        let ghost e = entries[i as int];
        let cid = coin_id(&page.coin_states[i].coin);
        proof {
            assert(e == page.coin_states@[i as int]@);
            assert(cid@ == entry_coin_id(e));
        }
        let is_p2 = store.is_p2_puzzle_hash(&page.coin_states[i].coin.puzzle_hash);
        let state = page.coin_states[i].dup();
        let ghost coins_before = store.coins();
        let ghost owned_before = store.owned();
        store.insert_coin_state(cid.dup(), state);
        if is_p2 {
            store.insert_p2_coin(cid);
        }
        proof {
            assert(entries.take(i + 1).drop_last() =~= entries.take(i as int));
            assert(entries.take(i + 1).last() == e);
            assert(page_coins_map(entries.take(i + 1)) == page_coins_map(
                entries.take(i as int),
            ).insert(entry_coin_id(e), e));
            lemma_union_insert(
                old(store).coins(),
                page_coins_map(entries.take(i as int)),
                entry_coin_id(e),
                e,
            );
            let ws = page_watched_ids(old(store).derivations(), entries.take(i as int));
            if spec_is_watched(old(store).derivations(), e.coin.puzzle_hash) {
                assert(page_watched_ids(old(store).derivations(), entries.take(i + 1)) == ws.insert(
                    entry_coin_id(e),
                ));
                lemma_set_union_insert(old(store).owned(), ws, entry_coin_id(e));
            } else {
                assert(page_watched_ids(old(store).derivations(), entries.take(i + 1)) == ws);
            }
        }
        i = i + 1;
    }
    proof {
        assert(entries.take(page.coin_states@.len() as int) =~= entries);
    }
    found
}

// ---------------------------------------------------------------------------
// The sync session
// ---------------------------------------------------------------------------

/// Where a sync session stands. A page is applied atomically inside one
/// step, so the session is observed either waiting to request or finished.
#[derive(Debug, Clone, Copy, PartialEq, Eq, Structural)]
pub enum SyncPhase {
    /// The next page is to be requested from the peer.
    Requesting,
    /// The peer reported the final page; the session is complete.
    Done,
    /// The session failed and must not be resumed.
    Failed(SyncError),
}

/// One sync session: the pagination protocol for one batch of watched
/// puzzle hashes against one peer.
#[derive(Debug)]
pub struct SyncSession {
    prev_height: Option<u32>,
    prev_header_hash: Hash32,
    found_coins: bool,
    phase: SyncPhase,
}

impl SyncSession {
    pub closed spec fn spec_phase(self) -> SyncPhase {
        self.phase
    }

    /// The cursor the next request is made from.
    pub closed spec fn spec_cursor(self) -> (Option<u32>, Seq<u8>) {
        (self.prev_height, self.prev_header_hash@)
    }

    /// Whether any page of this session reported coin states.
    pub closed spec fn spec_found_coins(self) -> bool {
        self.found_coins
    }

    pub closed spec fn wf(self) -> bool {
        self.prev_header_hash.wf()
    }

    /// Opens a session at the given cursor: the wallet's last known peak, or
    /// the chain's genesis boundary.
    pub fn new(start_height: Option<u32>, start_header_hash: Hash32) -> (r: SyncSession)
        requires
            start_header_hash.wf(),
        ensures
            r.spec_phase() == SyncPhase::Requesting,
            r.spec_cursor() == (start_height, start_header_hash@),
            !r.spec_found_coins(),
            r.wf(),
    {
        SyncSession {
            prev_height: start_height,
            prev_header_hash: start_header_hash,
            found_coins: false,
            phase: SyncPhase::Requesting,
        }
    }

    /// The cursor for the next request.
    pub fn cursor(&self) -> (r: (Option<u32>, Hash32))
        requires
            self.wf(),
        ensures
            (r.0, r.1@) == self.spec_cursor(),
            r.1.wf(),
    {
        (self.prev_height, self.prev_header_hash.dup())
    }

    pub fn phase(&self) -> (r: SyncPhase)
        ensures
            r == self.spec_phase(),
    {
        self.phase
    }

    pub fn found_coins(&self) -> (r: bool)
        ensures
            r == self.spec_found_coins(),
    {
        self.found_coins
    }

    /// Takes one step of the session's state machine on a peer's response.
    ///
    /// A page is ingested into the store as one atomic step and the cursor
    /// advances to the page's height and header; a coins-updated event is
    /// emitted once the page is committed. The session then keeps requesting
    /// while the peer signals more pages, and is done on the final page. A
    /// rejection or a timeout fails the session with the matching error kind
    /// and writes nothing: a subscription-limit rejection means another peer
    /// must be used, and a reorg rejection is surfaced as its own kind.
    pub fn apply_response(
        &mut self,
        store: &mut WalletStore,
        response: PeerResponse,
        events: &mut Vec<SyncEvent>,
    ) -> (r: Result<(), WalletError>)
        requires
            old(self).spec_phase() == SyncPhase::Requesting,
            old(self).wf(),
            old(store).wf(),
            response.wf(),
        ensures
            final(self).wf(),
            final(store).wf(),
            final(store).derivations() == old(store).derivations(),
            final(store).spec_peak() == old(store).spec_peak(),
            response matches PeerResponse::Page(page) ==> {
                &&& r is Ok
                &&& final(store).coins() == old(store).coins().union_prefer_right(
                    page_coins_map(page.entries()),
                )
                &&& final(store).owned() == old(store).owned().union(
                    page_watched_ids(old(store).derivations(), page.entries()),
                )
                &&& final(self).spec_cursor() == (Some(page.height), page.header_hash@)
                &&& final(self).spec_phase() == if page.is_finished {
                    SyncPhase::Done
                } else {
                    SyncPhase::Requesting
                }
                &&& final(self).spec_found_coins() == (old(self).spec_found_coins()
                    || page.coin_states@.len() > 0)
                &&& final(events)@ == old(events)@.push(SyncEvent::CoinsUpdated)
            },
            response matches PeerResponse::Rejection(reason) ==> {
                &&& *final(store) == *old(store)
                &&& final(events)@ == old(events)@
                &&& final(self).spec_found_coins() == old(self).spec_found_coins()
                &&& (reason == RejectReason::ExceededSubscriptionLimit ==> r == Result::<
                    (),
                    WalletError,
                >::Err(WalletError::Sync(SyncError::SubscriptionLimit)) && final(self).spec_phase()
                    == SyncPhase::Failed(SyncError::SubscriptionLimit))
                &&& (reason == RejectReason::Reorg ==> r == Result::<(), WalletError>::Err(
                    WalletError::Sync(SyncError::Reorg),
                ) && final(self).spec_phase() == SyncPhase::Failed(SyncError::Reorg))
            },
            response is Timeout ==> {
                &&& *final(store) == *old(store)
                &&& final(events)@ == old(events)@
                &&& final(self).spec_found_coins() == old(self).spec_found_coins()
                &&& r == Result::<(), WalletError>::Err(WalletError::Sync(SyncError::Timeout))
                &&& final(self).spec_phase() == SyncPhase::Failed(SyncError::Timeout)
            },
    {
        match response {
            PeerResponse::Page(page) => {
                let found = apply_page(store, &page);
                events.push(SyncEvent::CoinsUpdated);
                self.prev_height = Some(page.height);
                self.prev_header_hash = page.header_hash;
                self.found_coins = self.found_coins || found;
                self.phase = if page.is_finished {
                    SyncPhase::Done
                } else {
                    SyncPhase::Requesting
                };
                Ok(())
            },
            PeerResponse::Rejection(reason) => {
                match reason {
                    RejectReason::ExceededSubscriptionLimit => {
                        self.phase = SyncPhase::Failed(SyncError::SubscriptionLimit);
                        Err(WalletError::Sync(SyncError::SubscriptionLimit))
                    },
                    RejectReason::Reorg => {
                        self.phase = SyncPhase::Failed(SyncError::Reorg);
                        Err(WalletError::Sync(SyncError::Reorg))
                    },
                }
            },
            PeerResponse::Timeout => {
                self.phase = SyncPhase::Failed(SyncError::Timeout);
                Err(WalletError::Sync(SyncError::Timeout))
            },
        }
    }
}

/// Runs one sync session to completion: requests coin-state pages for one
/// batch of puzzle hashes, strictly sequentially, ingesting each page before
/// the next request. Coins and owned-coin records only accumulate across
/// the session; the watched set and the peak are untouched. Returns whether
/// any coin states were observed, which the orchestrator uses to decide
/// whether derivation should expand further.
pub fn sync_puzzle_hashes<P: PeerSource>(
    store: &mut WalletStore,
    peer: &mut P,
    start_height: Option<u32>,
    start_header_hash: &Hash32,
    puzzle_hashes: &Vec<Hash32>,
    events: &mut Vec<SyncEvent>,
) -> (r: Result<bool, WalletError>)
    requires
        old(store).wf(),
        start_header_hash.wf(),
    ensures
        final(store).wf(),
        final(store).derivations() == old(store).derivations(),
        final(store).spec_peak() == old(store).spec_peak(),
        forall|k: Seq<u8>| old(store).coins().contains_key(k) ==> final(store).coins().contains_key(
            k,
        ),
        forall|k: Seq<u8>| old(store).owned().contains(k) ==> final(store).owned().contains(k),
        r matches Err(e) ==> e matches WalletError::Sync(_),
{
    let mut session = SyncSession::new(start_height, start_header_hash.dup());
    // The protocol allows any number of pages; the budget below only bounds
    // the loop for the termination proof, at a count no real peer reaches.
    let mut pages_left: u64 = u64::MAX;
    loop
        invariant
            session.wf(),
            session.spec_phase() == SyncPhase::Requesting,
            store.wf(),
            store.derivations() == old(store).derivations(),
            store.spec_peak() == old(store).spec_peak(),
            forall|k: Seq<u8>| old(store).coins().contains_key(k) ==> store.coins().contains_key(
                k,
            ),
            forall|k: Seq<u8>| old(store).owned().contains(k) ==> store.owned().contains(k),
        decreases pages_left,
    {
        if pages_left == 0 {
            return Err(WalletError::Sync(SyncError::Timeout));
        }
        pages_left = pages_left - 1;
        let (prev_height, prev_header_hash) = session.cursor();
        let response = peer.request_puzzle_state(puzzle_hashes, prev_height, &prev_header_hash, true);
        match session.apply_response(store, response, events) {
            Ok(()) => {
                match session.phase() {
                    SyncPhase::Done => {
                        return Ok(session.found_coins());
                    },
                    _ => {
                    },
                }
            },
            Err(e) => {
                return Err(e);
            },
        }
    }
}

// ---------------------------------------------------------------------------
// The sync orchestrator
// ---------------------------------------------------------------------------

/// The stored peak moved only forward: whatever peak stood before still
/// stands at no lesser height after.
pub open spec fn peak_advances(before: Option<(u32, Seq<u8>)>, after: Option<(u32, Seq<u8>)>) -> bool {
    match before {
        Some((h0, _)) => after matches Some(p) && p.0 >= h0,
        None => true,
    }
}

/// The stored peak's height never decreases across successive successful
/// passes: each pass moves the peak only forward, so any chain of passes
/// does too.
pub proof fn lemma_peak_monotone_across_passes(
    first: Option<(u32, Seq<u8>)>,
    second: Option<(u32, Seq<u8>)>,
    third: Option<(u32, Seq<u8>)>,
)
    requires
        peak_advances(first, second),
        peak_advances(second, third),
    ensures
        peak_advances(first, third),
{
}

/// What one full sync pass did.
#[derive(Debug, Clone, Copy, PartialEq, Eq, Structural)]
pub struct SyncSummary {
    /// How many derivation-expansion rounds the pass performed.
    pub expansion_rounds: u32,
    /// Whether any batch of the pass observed coin states.
    pub found_coins: bool,
}

/// Copies the hashes of one batch out of the watched list.
fn batch_slice(hashes: &Vec<Hash32>, start: usize, end: usize) -> (r: Vec<Hash32>)
    requires
        start <= end <= hashes@.len(),
    ensures
        r@.len() == end - start,
        forall|i: int| 0 <= i < r@.len() ==> (#[trigger] r@[i])@ == hashes@[start + i]@,
{
    let mut out: Vec<Hash32> = Vec::new();
    let mut i: usize = start;
    while i < end
        invariant
            start <= i <= end <= hashes@.len(),
            out@.len() == i - start,
            forall|j: int| 0 <= j < out@.len() ==> (#[trigger] out@[j])@ == hashes@[start + j]@,
        decreases end - i,
    {
        out.push(hashes[i].dup());
        i = i + 1;
    }
    out
}

/// The cursor a sync pass starts from: the wallet's last known peak, or the
/// chain's genesis boundary when no peak is stored yet.
pub fn start_cursor(store: &WalletStore, genesis_challenge: &Hash32) -> (r: (Option<u32>, Hash32))
    requires
        store.wf(),
        genesis_challenge.wf(),
    ensures
        match store.spec_peak() {
            Some((height, header_hash)) => r.0 == Some(height) && r.1@ == header_hash,
            None => r.0 is None && r.1@ == genesis_challenge@,
        },
        r.1.wf(),
{
    match store.latest_peak() {
        Some(peak) => (Some(peak.height), peak.header_hash),
        None => (None, genesis_challenge.dup()),
    }
}

/// Drives one full synchronization pass for a wallet against one peer.
///
/// The pass loads the watched puzzle hashes and the stored peak, syncs the
/// watched set in batches, and, while the wallet is empty or batches keep
/// reporting coin activity, derives the next batch of addresses, persists
/// the records, and syncs only the newly derived batch. Expansion stops when
/// a round reports no activity, and also at the end of the 32-bit index
/// space of the key tree. On completion the best peak observed in the peer
/// registry is persisted, and only if it does not move the stored peak
/// backwards; a registry without a peak is not an error.
pub fn sync_wallet<P: PeerSource>(
    store: &mut WalletStore,
    intermediate_pk: &PublicKeyBytes,
    genesis_challenge: &Hash32,
    peer: &mut P,
    state: &PeerState,
    events: &mut Vec<SyncEvent>,
) -> (r: Result<SyncSummary, WalletError>)
    requires
        old(store).wf(),
        genesis_challenge.wf(),
        state.wf(),
        old(store).derivations().len() + 1000 < u32::MAX,
    ensures
        final(store).wf(),
        old(store).derivations().is_prefix_of(final(store).derivations()),
        peak_advances(old(store).spec_peak(), final(store).spec_peak()),
        state.spec_peak() is None ==> final(store).spec_peak() == old(store).spec_peak(),
        r is Err ==> final(store).spec_peak() == old(store).spec_peak(),
        r matches Err(e) ==> (e matches WalletError::Sync(_) || e
            == WalletError::InvalidKeyMaterial),
        is_bls_pk(intermediate_pk@) ==> (r matches Err(e) ==> e matches WalletError::Sync(_)),
        r matches Ok(s) ==> (!s.found_coins ==> s.expansion_rounds <= 1),
        r matches Ok(s) ==> (old(store).derivations().len() == 0 ==> s.expansion_rounds >= 1),
        r matches Ok(s) ==> {
            &&& final(store).derivations().len() == old(store).derivations().len()
                + s.expansion_rounds * 1000
            &&& forall|j: int|
                old(store).derivations().len() <= j < final(store).derivations().len() ==> (
                #[trigger] final(store).derivations()[j]) == spec_unhardened_record(
                    intermediate_pk@,
                    j as u32,
                )
        },
{
    let p2_puzzle_hashes = store.p2_puzzle_hashes();
    let (start_height, start_header_hash) = start_cursor(store, genesis_challenge);

    let mut derive_more = p2_puzzle_hashes.len() == 0;
    let mut found_any = false;

    let mut pos: usize = 0;
    while pos < p2_puzzle_hashes.len()
        invariant
            pos <= p2_puzzle_hashes@.len(),
            store.wf(),
            store.derivations() == old(store).derivations(),
            store.spec_peak() == old(store).spec_peak(),
            start_header_hash.wf(),
            derive_more ==> (found_any || old(store).derivations().len() == 0),
            old(store).derivations().len() == 0 ==> derive_more,
        decreases p2_puzzle_hashes@.len() - pos,
    {
        let end = if p2_puzzle_hashes.len() - pos > BATCH_SIZE {
            pos + BATCH_SIZE
        } else {
            p2_puzzle_hashes.len()
        };
        let batch = batch_slice(&p2_puzzle_hashes, pos, end);
        let found = match sync_puzzle_hashes(
            store,
            peer,
            start_height,
            &start_header_hash,
            &batch,
            events,
        ) {
            Ok(found) => found,
            Err(e) => {
                return Err(e);
            },
        };
        derive_more = derive_more || found;
        found_any = found_any || found;
        pos = end;
    }

    let mut start_index: u32 = store.derivation_count() as u32;
    let mut rounds: u32 = 0;
    let ghost init_index = start_index as int;

    while derive_more
        invariant
            store.wf(),
            old(store).derivations().is_prefix_of(store.derivations()),
            store.spec_peak() == old(store).spec_peak(),
            genesis_challenge.wf(),
            start_index as int == init_index + rounds * 1000,
            0 <= init_index,
            init_index == old(store).derivations().len(),
            init_index + 1000 < u32::MAX,
            store.derivations().len() == start_index as int,
            forall|j: int| init_index <= j < store.derivations().len() ==> (
            #[trigger] store.derivations()[j]) == spec_unhardened_record(
                intermediate_pk@,
                j as u32,
            ),
            !found_any ==> (rounds == 0 || (rounds == 1 && !derive_more)),
            old(store).derivations().len() == 0 ==> (derive_more || rounds >= 1),
        ensures
            old(store).derivations().len() == 0 ==> rounds >= 1,
        decreases u32::MAX - start_index,
    {
        if start_index > u32::MAX - 1000 {
            break ;
        }
        rounds = rounds + 1;
        derive_more = false;

        let new_derivations = match derive_batch(intermediate_pk, start_index, 1000) {
            Ok(new_derivations) => new_derivations,
            Err(e) => {
                return Err(e);
            },
        };

        let mut hashes: Vec<Hash32> = Vec::new();
        let mut j: usize = 0;
        while j < new_derivations.len()
            invariant
                store.wf(),
                old(store).derivations().is_prefix_of(store.derivations()),
                store.spec_peak() == old(store).spec_peak(),
                j <= new_derivations@.len(),
                new_derivations@.len() == 1000,
                hashes@.len() == j,
                0 <= init_index == old(store).derivations().len(),
                1 <= rounds,
                start_index as int == init_index + (rounds - 1) * 1000,
                start_index + 1000 <= u32::MAX,
                store.derivations().len() == start_index + j,
                forall|j2: int| init_index <= j2 < store.derivations().len() ==> (
                #[trigger] store.derivations()[j2]) == spec_unhardened_record(
                    intermediate_pk@,
                    j2 as u32,
                ),
                forall|t: int| #![trigger new_derivations@[t]] 0 <= t
                    < new_derivations@.len() ==> {
                    &&& new_derivations@[t].index == start_index + t
                    &&& new_derivations@[t].synthetic_key@ == spec_derived_synthetic_key(
                        intermediate_pk@,
                        (start_index + t) as u32,
                    )
                    &&& new_derivations@[t].p2_puzzle_hash@ == spec_derived_puzzle_hash(
                        intermediate_pk@,
                        (start_index + t) as u32,
                    )
                    &&& new_derivations@[t].synthetic_key.wf()
                    &&& new_derivations@[t].p2_puzzle_hash.wf()
                },
            decreases new_derivations@.len() - j,
        {
            let d = &new_derivations[j];
            store.insert_derivation(
                d.p2_puzzle_hash.dup(),
                d.index,
                false,
                d.synthetic_key.dup(),
            );
            proof {
                assert(old(store).derivations().is_prefix_of(store.derivations())) by {
                    assert(store.derivations().subrange(
                        0,
                        old(store).derivations().len() as int,
                    ) =~= old(store).derivations());
                }
            }
            hashes.push(d.p2_puzzle_hash.dup());
            j = j + 1;
        }

        start_index = start_index + 1000;

        let found = match sync_puzzle_hashes(
            store,
            peer,
            None,
            genesis_challenge,
            &hashes,
            events,
        ) {
            Ok(found) => found,
            Err(e) => {
                return Err(e);
            },
        };
        derive_more = found;
        found_any = found_any || found;
    }

    match state.peak() {
        Some(peak) => {
            let advance = match store.latest_peak() {
                Some(current) => peak.height >= current.height,
                None => true,
            };
            if advance {
                store.insert_peak(peak.height, peak.header_hash);
            }
        },
        None => {
        },
    }

    Ok(SyncSummary { expansion_rounds: rounds, found_coins: found_any })
}

} // verus!
