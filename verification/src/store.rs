use vstd::prelude::*;

use crate::ids::{Hash32, PublicKeyBytes};
use crate::registry::PeakInfo;

verus! {

// ---------------------------------------------------------------------------
// Records
// ---------------------------------------------------------------------------

/// A coin as reported by a peer: its parent coin id, the hash of its locking
/// puzzle, and its amount.
#[derive(Debug)]
pub struct CoinRec {
    pub parent_coin_info: Hash32,
    pub puzzle_hash: Hash32,
    pub amount: u64,
}

/// The mathematical value of a [`CoinRec`].
pub ghost struct CoinRecView {
    pub parent_coin_info: Seq<u8>,
    pub puzzle_hash: Seq<u8>,
    pub amount: u64,
}

impl CoinRec {
    pub open spec fn view(self) -> CoinRecView {
        CoinRecView {
            parent_coin_info: self.parent_coin_info@,
            puzzle_hash: self.puzzle_hash@,
            amount: self.amount,
        }
    }

    pub open spec fn wf(self) -> bool {
        self.parent_coin_info.wf() && self.puzzle_hash.wf()
    }

    pub fn dup(&self) -> (r: CoinRec)
        ensures
            r@ == self@,
            r.wf() == self.wf(),
    {
        CoinRec {
            parent_coin_info: self.parent_coin_info.dup(),
            puzzle_hash: self.puzzle_hash.dup(),
            amount: self.amount,
        }
    }
}

/// A peer-reported coin state: the coin itself plus the heights at which it
/// was created and spent, where known.
#[derive(Debug)]
pub struct CoinStateRec {
    pub coin: CoinRec,
    pub created_height: Option<u32>,
    pub spent_height: Option<u32>,
}

/// The mathematical value of a [`CoinStateRec`].
pub ghost struct CoinStateView {
    pub coin: CoinRecView,
    pub created_height: Option<u32>,
    pub spent_height: Option<u32>,
}

impl CoinStateRec {
    pub open spec fn view(self) -> CoinStateView {
        CoinStateView {
            coin: self.coin@,
            created_height: self.created_height,
            spent_height: self.spent_height,
        }
    }

    pub open spec fn wf(self) -> bool {
        self.coin.wf()
    }

    pub fn dup(&self) -> (r: CoinStateRec)
        ensures
            r@ == self@,
            r.wf() == self.wf(),
    {
        CoinStateRec {
            coin: self.coin.dup(),
            created_height: self.created_height,
            spent_height: self.spent_height,
        }
    }
}

/// One stored coin row: a coin state keyed by its coin id.
#[derive(Debug)]
pub struct CoinRow {
    pub coin_id: Hash32,
    pub state: CoinStateRec,
}

impl CoinRow {
    pub open spec fn wf(self) -> bool {
        self.coin_id.wf() && self.state.wf()
    }
}

/// A derivation record: the key-tree position that produced a watched puzzle
/// hash. Records are created in monotonically increasing index batches and
/// never mutated.
#[derive(Debug)]
pub struct DerivationRow {
    pub p2_puzzle_hash: Hash32,
    pub derivation_index: u32,
    pub is_hardened: bool,
    pub synthetic_key: PublicKeyBytes,
}

/// The mathematical value of a [`DerivationRow`].
pub ghost struct DerivationView {
    pub p2_puzzle_hash: Seq<u8>,
    pub derivation_index: u32,
    pub is_hardened: bool,
    pub synthetic_key: Seq<u8>,
}

impl DerivationRow {
    pub open spec fn view(self) -> DerivationView {
        DerivationView {
            p2_puzzle_hash: self.p2_puzzle_hash@,
            derivation_index: self.derivation_index,
            is_hardened: self.is_hardened,
            synthetic_key: self.synthetic_key@,
        }
    }

    pub open spec fn wf(self) -> bool {
        self.p2_puzzle_hash.wf() && self.synthetic_key.wf()
    }

    pub fn dup(&self) -> (r: DerivationRow)
        ensures
            r@ == self@,
            r.wf() == self.wf(),
    {
        DerivationRow {
            p2_puzzle_hash: self.p2_puzzle_hash.dup(),
            derivation_index: self.derivation_index,
            is_hardened: self.is_hardened,
            synthetic_key: self.synthetic_key.dup(),
        }
    }
}

// ---------------------------------------------------------------------------
// Spec-level abstractions
// ---------------------------------------------------------------------------

/// The map from coin id to stored coin state that a sequence of rows
/// represents; a later row with the same id wins.
pub open spec fn rows_map(rows: Seq<CoinRow>) -> Map<Seq<u8>, CoinStateView>
    decreases rows.len(),
{
    if rows.len() == 0 {
        Map::empty()
    } else {
        rows_map(rows.drop_last()).insert(rows.last().coin_id@, rows.last().state@)
    }
}

/// The set of identifiers a sequence of hashes represents.
pub open spec fn ids_set(ids: Seq<Hash32>) -> Set<Seq<u8>>
    decreases ids.len(),
{
    if ids.len() == 0 {
        Set::empty()
    } else {
        ids_set(ids.drop_last()).insert(ids.last()@)
    }
}

/// No two rows share a coin id.
pub open spec fn unique_row_ids(rows: Seq<CoinRow>) -> bool {
    forall|i: int, j: int| #![auto] 0 <= i < j < rows.len() ==> rows[i].coin_id@ != rows[j].coin_id@
}

/// No hash occurs twice.
pub open spec fn unique_hashes(ids: Seq<Hash32>) -> bool {
    forall|i: int, j: int| #![auto] 0 <= i < j < ids.len() ==> ids[i]@ != ids[j]@
}

/// A puzzle hash is watched when some derivation record produced it.
pub open spec fn spec_is_watched(derivs: Seq<DerivationView>, ph: Seq<u8>) -> bool {
    exists|i: int| 0 <= i < derivs.len() && derivs[i].p2_puzzle_hash == ph
}

/// The first derivation record whose synthetic key matches, if any.
pub open spec fn spec_find_derivation(derivs: Seq<DerivationView>, pk: Seq<u8>) -> Option<
    DerivationView,
>
    decreases derivs.len(),
{
    if derivs.len() == 0 {
        None
    } else if derivs[0].synthetic_key == pk {
        Some(derivs[0])
    } else {
        spec_find_derivation(derivs.drop_first(), pk)
    }
}

// ---------------------------------------------------------------------------
// Lemmas about the abstractions
// ---------------------------------------------------------------------------

/// The row at a given index is visible in the map, provided ids are unique.
pub proof fn lemma_rows_map_get(rows: Seq<CoinRow>, i: int)
    requires
        unique_row_ids(rows),
        0 <= i < rows.len(),
    ensures
        rows_map(rows).contains_key(rows[i].coin_id@),
        rows_map(rows)[rows[i].coin_id@] == rows[i].state@,
    decreases rows.len(),
{
    if i < rows.len() - 1 {
        lemma_rows_map_get(rows.drop_last(), i);
        assert(rows[rows.len() - 1].coin_id@ != rows[i].coin_id@);
    }
}

/// A key matching no row is absent from the map.
pub proof fn lemma_rows_map_absent(rows: Seq<CoinRow>, k: Seq<u8>)
    requires
        forall|i: int| 0 <= i < rows.len() ==> rows[i].coin_id@ != k,
    ensures
        !rows_map(rows).contains_key(k),
    decreases rows.len(),
{
    if rows.len() > 0 {
        lemma_rows_map_absent(rows.drop_last(), k);
    }
}

/// Replacing the row that holds a key updates exactly that key in the map.
pub proof fn lemma_rows_map_update(rows: Seq<CoinRow>, i: int, row: CoinRow)
    requires
        unique_row_ids(rows),
        0 <= i < rows.len(),
        rows[i].coin_id@ == row.coin_id@,
    ensures
        rows_map(rows.update(i, row)) =~= rows_map(rows).insert(row.coin_id@, row.state@),
    decreases rows.len(),
{
    let u = rows.update(i, row);
    if i == rows.len() - 1 {
        assert(u.drop_last() =~= rows.drop_last());
        assert(rows_map(u) =~= rows_map(rows).insert(row.coin_id@, row.state@));
    } else {
        assert(u.drop_last() =~= rows.drop_last().update(i, row));
        lemma_rows_map_update(rows.drop_last(), i, row);
        let last = rows.last();
        assert(u.last() == last);
        assert(last.coin_id@ != row.coin_id@);
        assert(rows_map(u) =~= rows_map(rows).insert(row.coin_id@, row.state@));
    }
}

/// The map of unique rows has exactly one entry per row.
pub proof fn lemma_rows_map_len(rows: Seq<CoinRow>)
    requires
        unique_row_ids(rows),
    ensures
        rows_map(rows).dom().finite(),
        rows_map(rows).dom().len() == rows.len(),
    decreases rows.len(),
{
    if rows.len() == 0 {
    } else {
        lemma_rows_map_len(rows.drop_last());
        lemma_rows_map_absent(rows.drop_last(), rows.last().coin_id@);
    }
}

/// Membership in the identifier set matches membership in the sequence.
pub proof fn lemma_ids_set_contains(ids: Seq<Hash32>, k: Seq<u8>)
    ensures
        ids_set(ids).contains(k) <==> exists|i: int| 0 <= i < ids.len() && ids[i]@ == k,
    decreases ids.len(),
{
    if ids.len() > 0 {
        lemma_ids_set_contains(ids.drop_last(), k);
        if ids.last()@ == k {
            assert(ids[ids.len() - 1]@ == k);
        } else if exists|i: int| 0 <= i < ids.len() && ids[i]@ == k {
            let i = choose|i: int| 0 <= i < ids.len() && ids[i]@ == k;
            if i < ids.len() - 1 {
                assert(ids.drop_last()[i]@ == k);
            }
        }
    }
}

/// When a prefix of records contains no match and an index matches, the
/// first match is that index.
proof fn lemma_find_first(derivs: Seq<DerivationView>, pk: Seq<u8>, i: int)
    requires
        0 <= i < derivs.len(),
        derivs[i].synthetic_key == pk,
        forall|j: int| 0 <= j < i ==> derivs[j].synthetic_key != pk,
    ensures
        spec_find_derivation(derivs, pk) == Some(derivs[i]),
    decreases derivs.len(),
{
    if i > 0 {
        lemma_find_first(derivs.drop_first(), pk, i - 1);
    }
}

/// When no record matches, the search finds nothing.
proof fn lemma_find_none(derivs: Seq<DerivationView>, pk: Seq<u8>)
    requires
        forall|j: int| 0 <= j < derivs.len() ==> derivs[j].synthetic_key != pk,
    ensures
        spec_find_derivation(derivs, pk) is None,
    decreases derivs.len(),
{
    if derivs.len() > 0 {
        lemma_find_none(derivs.drop_first(), pk);
    }
}

// ---------------------------------------------------------------------------
// The store
// ---------------------------------------------------------------------------

/// The wallet's locally trusted store: derivation records, ingested coin
/// states keyed by coin id, the set of wallet-owned coin ids, and the peak
/// the wallet currently syncs from.
///
/// This is the in-memory model of the persistent store the sync engine
/// writes through; a page of updates is applied to it as one atomic step.
#[derive(Debug)]
pub struct WalletStore {
    derivation_rows: Vec<DerivationRow>,
    coin_rows: Vec<CoinRow>,
    owned_rows: Vec<Hash32>,
    peak: Option<PeakInfo>,
}

impl WalletStore {
    /// The derivation records, in insertion order.
    pub closed spec fn derivations(self) -> Seq<DerivationView> {
        self.derivation_rows@.map_values(|r: DerivationRow| r@)
    }

    /// The stored coin states, keyed by coin id.
    pub closed spec fn coins(self) -> Map<Seq<u8>, CoinStateView> {
        rows_map(self.coin_rows@)
    }

    /// The ids of coins recorded as wallet-owned.
    pub closed spec fn owned(self) -> Set<Seq<u8>> {
        ids_set(self.owned_rows@)
    }

    /// The stored peak, if any.
    pub closed spec fn spec_peak(self) -> Option<(u32, Seq<u8>)> {
        match self.peak {
            Some(p) => Some((p.height, p.header_hash@)),
            None => None,
        }
    }

    pub closed spec fn wf(self) -> bool {
        &&& forall|i: int| 0 <= i < self.derivation_rows@.len() ==> (
        #[trigger] self.derivation_rows@[i]).wf()
        &&& forall|i: int| 0 <= i < self.coin_rows@.len() ==> (#[trigger] self.coin_rows@[i]).wf()
        &&& unique_row_ids(self.coin_rows@)
        &&& forall|i: int| 0 <= i < self.owned_rows@.len() ==> (
        #[trigger] self.owned_rows@[i]).wf()
        &&& unique_hashes(self.owned_rows@)
        &&& (self.peak matches Some(p) ==> p.header_hash.wf())
    }

    /// An empty store: no derivations, no coins, no peak.
    pub fn new() -> (r: WalletStore)
        ensures
            r.wf(),
            r.derivations() == Seq::<DerivationView>::empty(),
            r.coins() == Map::<Seq<u8>, CoinStateView>::empty(),
            r.owned() == Set::<Seq<u8>>::empty(),
            r.spec_peak() is None,
    {
        let r = WalletStore {
            derivation_rows: Vec::new(),
            coin_rows: Vec::new(),
            owned_rows: Vec::new(),
            peak: None,
        };
        proof {
            assert(r.derivations() =~= Seq::<DerivationView>::empty());
        }
        r
    }

    /// All watched puzzle hashes, in derivation insertion order.
    pub fn p2_puzzle_hashes(&self) -> (r: Vec<Hash32>)
        requires
            self.wf(),
        ensures
            r@.len() == self.derivations().len(),
            forall|i: int| 0 <= i < r@.len() ==> (#[trigger] r@[i])@ == self.derivations()[i].p2_puzzle_hash
                && r@[i].wf(),
    {
        let mut out: Vec<Hash32> = Vec::new();
        let mut i: usize = 0;
        while i < self.derivation_rows.len()
            invariant
                self.wf(),
                i <= self.derivation_rows@.len(),
                out@.len() == i,
                forall|j: int| 0 <= j < i ==> (#[trigger] out@[j])@
                    == self.derivations()[j].p2_puzzle_hash && out@[j].wf(),
            decreases self.derivation_rows@.len() - i,
        {
            out.push(self.derivation_rows[i].p2_puzzle_hash.dup());
            i = i + 1;
        }
        out
    }

    /// The number of derivation records.
    pub fn derivation_count(&self) -> (r: usize)
        ensures
            r == self.derivations().len(),
    {
        self.derivation_rows.len()
    }

    /// Appends a derivation record.
    pub fn insert_derivation(
        &mut self,
        p2_puzzle_hash: Hash32,
        derivation_index: u32,
        is_hardened: bool,
        synthetic_key: PublicKeyBytes,
    )
        requires
            old(self).wf(),
            p2_puzzle_hash.wf(),
            synthetic_key.wf(),
        ensures
            final(self).wf(),
            final(self).derivations() == old(self).derivations().push(
                DerivationView {
                    p2_puzzle_hash: p2_puzzle_hash@,
                    derivation_index: derivation_index,
                    is_hardened: is_hardened,
                    synthetic_key: synthetic_key@,
                },
            ),
            final(self).coins() == old(self).coins(),
            final(self).owned() == old(self).owned(),
            final(self).spec_peak() == old(self).spec_peak(),
    {
        let row = DerivationRow { p2_puzzle_hash, derivation_index, is_hardened, synthetic_key };
        self.derivation_rows.push(row);
        proof {
            assert(self.derivations() =~= old(self).derivations().push(row@));
        }
    }

    /// Whether a puzzle hash belongs to this wallet's watched set.
    pub fn is_p2_puzzle_hash(&self, puzzle_hash: &Hash32) -> (r: bool)
        requires
            self.wf(),
        ensures
            r == spec_is_watched(self.derivations(), puzzle_hash@),
    {
        let mut i: usize = 0;
        while i < self.derivation_rows.len()
            invariant
                self.wf(),
                i <= self.derivation_rows@.len(),
                forall|j: int| 0 <= j < i ==> self.derivations()[j].p2_puzzle_hash
                    != puzzle_hash@,
            decreases self.derivation_rows@.len() - i,
        {
            if self.derivation_rows[i].p2_puzzle_hash.eq(puzzle_hash) {
                proof {
                    assert(self.derivations()[i as int].p2_puzzle_hash == puzzle_hash@);
                }
                return true;
            }
            i = i + 1;
        }
        false
    }

    /// The derivation record for a synthetic public key: the first record
    /// inserted under that key, or nothing when the wallet never derived it.
    pub fn derivation(&self, synthetic_key: &PublicKeyBytes) -> (r: Option<DerivationRow>)
        requires
            self.wf(),
        ensures
            match r {
                Some(d) => spec_find_derivation(self.derivations(), synthetic_key@) == Some(d@)
                    && d.wf(),
                None => spec_find_derivation(self.derivations(), synthetic_key@) is None,
            },
    {
        let mut i: usize = 0;
        while i < self.derivation_rows.len()
            invariant
                self.wf(),
                i <= self.derivation_rows@.len(),
                forall|j: int| 0 <= j < i ==> self.derivations()[j].synthetic_key
                    != synthetic_key@,
            decreases self.derivation_rows@.len() - i,
        {
            if self.derivation_rows[i].synthetic_key.eq(synthetic_key) {
                let d = self.derivation_rows[i].dup();
                proof {
                    lemma_find_first(self.derivations(), synthetic_key@, i as int);
                }
                return Some(d);
            }
            i = i + 1;
        }
        proof {
            lemma_find_none(self.derivations(), synthetic_key@);
        }
        None
    }

    /// Ingests one reported coin state, keyed by its coin id. The operation
    /// is an idempotent upsert: the stored state for that coin id becomes
    /// exactly the reported one, so a later report with a populated spent
    /// height supersedes an earlier one lacking it, and re-applying an
    /// identical report changes nothing.
    pub fn insert_coin_state(&mut self, coin_id: Hash32, state: CoinStateRec)
        requires
            old(self).wf(),
            coin_id.wf(),
            state.wf(),
        ensures
            final(self).wf(),
            final(self).coins() == old(self).coins().insert(coin_id@, state@),
            final(self).derivations() == old(self).derivations(),
            final(self).owned() == old(self).owned(),
            final(self).spec_peak() == old(self).spec_peak(),
    {
        let ghost k = coin_id@;
        let ghost st = state@;
        let mut i: usize = 0;
        while i < self.coin_rows.len()
            invariant
                self.wf(),
                self == old(self),
                i <= self.coin_rows@.len(),
                forall|j: int| 0 <= j < i ==> self.coin_rows@[j].coin_id@ != k,
                coin_id@ == k,
                state@ == st,
                coin_id.wf(),
                state.wf(),
            decreases self.coin_rows@.len() - i,
        {
            if self.coin_rows[i].coin_id.eq(&coin_id) {
                let row = CoinRow { coin_id, state };
                proof {
                    lemma_rows_map_update(self.coin_rows@, i as int, row);
                }
                self.coin_rows[i] = row;
                proof {
                    assert(self.coins() =~= old(self).coins().insert(k, st));
                    assert(self.derivations() =~= old(self).derivations());
                }
                return ;
            }
            i = i + 1;
        }
        let row = CoinRow { coin_id, state };
        self.coin_rows.push(row);
        proof {
            assert(self.coin_rows@.drop_last() =~= old(self).coin_rows@);
            assert(self.coins() =~= old(self).coins().insert(k, st));
            assert(self.derivations() =~= old(self).derivations());
        }
    }

    /// Records a coin id as wallet-owned. Inserting an id that is already
    /// recorded changes nothing.
    pub fn insert_p2_coin(&mut self, coin_id: Hash32)
        requires
            old(self).wf(),
            coin_id.wf(),
        ensures
            final(self).wf(),
            final(self).owned() == old(self).owned().insert(coin_id@),
            final(self).coins() == old(self).coins(),
            final(self).derivations() == old(self).derivations(),
            final(self).spec_peak() == old(self).spec_peak(),
    {
        let ghost k = coin_id@;
        let mut i: usize = 0;
        while i < self.owned_rows.len()
            invariant
                self.wf(),
                self == old(self),
                i <= self.owned_rows@.len(),
                forall|j: int| 0 <= j < i ==> self.owned_rows@[j]@ != k,
                coin_id@ == k,
            decreases self.owned_rows@.len() - i,
        {
            if self.owned_rows[i].eq(&coin_id) {
                proof {
                    lemma_ids_set_contains(self.owned_rows@, k);
                    assert(self.owned().contains(k));
                    assert(self.owned() =~= old(self).owned().insert(k));
                }
                return ;
            }
            i = i + 1;
        }
        self.owned_rows.push(coin_id);
        proof {
            assert(self.owned_rows@.drop_last() =~= old(self).owned_rows@);
            lemma_ids_set_contains(old(self).owned_rows@, k);
        }
    }

    /// Reads the stored state of one coin, by coin id.
    pub fn coin_state(&self, coin_id: &Hash32) -> (r: Option<CoinStateRec>)
        requires
            self.wf(),
        ensures
            match r {
                Some(st) => self.coins().contains_key(coin_id@) && st@ == self.coins()[coin_id@],
                None => !self.coins().contains_key(coin_id@),
            },
    {
        let mut i: usize = 0;
        while i < self.coin_rows.len()
            invariant
                self.wf(),
                i <= self.coin_rows@.len(),
                forall|j: int| 0 <= j < i ==> self.coin_rows@[j].coin_id@ != coin_id@,
            decreases self.coin_rows@.len() - i,
        {
            if self.coin_rows[i].coin_id.eq(coin_id) {
                let st = self.coin_rows[i].state.dup();
                proof {
                    lemma_rows_map_get(self.coin_rows@, i as int);
                }
                return Some(st);
            }
            i = i + 1;
        }
        proof {
            lemma_rows_map_absent(self.coin_rows@, coin_id@);
        }
        None
    }

    /// The number of distinct coins stored.
    pub fn coin_count(&self) -> (r: usize)
        requires
            self.wf(),
        ensures
            r == self.coins().dom().len(),
    {
        proof {
            lemma_rows_map_len(self.coin_rows@);
        }
        self.coin_rows.len()
    }

    /// Whether a coin id is recorded as wallet-owned.
    pub fn is_owned(&self, coin_id: &Hash32) -> (r: bool)
        requires
            self.wf(),
        ensures
            r == self.owned().contains(coin_id@),
    {
        let mut i: usize = 0;
        while i < self.owned_rows.len()
            invariant
                self.wf(),
                i <= self.owned_rows@.len(),
                forall|j: int| 0 <= j < i ==> self.owned_rows@[j]@ != coin_id@,
            decreases self.owned_rows@.len() - i,
        {
            if self.owned_rows[i].eq(coin_id) {
                proof {
                    lemma_ids_set_contains(self.owned_rows@, coin_id@);
                }
                return true;
            }
            i = i + 1;
        }
        proof {
            lemma_ids_set_contains(self.owned_rows@, coin_id@);
        }
        false
    }

    /// The wallet's stored peak, if any.
    pub fn latest_peak(&self) -> (r: Option<PeakInfo>)
        requires
            self.wf(),
        ensures
            match r {
                Some(p) => self.spec_peak() == Some((p.height, p.header_hash@))
                    && p.header_hash.wf(),
                None => self.spec_peak() is None,
            },
    {
        match &self.peak {
            Some(p) => Some(p.dup()),
            None => None,
        }
    }

    /// Removes every stored coin row and owned-coin record.
    pub fn clear_coins(&mut self)
        requires
            old(self).wf(),
        ensures
            final(self).wf(),
            final(self).coins() == Map::<Seq<u8>, CoinStateView>::empty(),
            final(self).owned() == Set::<Seq<u8>>::empty(),
            final(self).derivations() == old(self).derivations(),
            final(self).spec_peak() == old(self).spec_peak(),
    {
        self.coin_rows.clear();
        self.owned_rows.clear();
    }

    /// Removes every derivation record.
    pub fn clear_derivations(&mut self)
        requires
            old(self).wf(),
        ensures
            final(self).wf(),
            final(self).derivations() == Seq::<DerivationView>::empty(),
            final(self).coins() == old(self).coins(),
            final(self).owned() == old(self).owned(),
            final(self).spec_peak() == old(self).spec_peak(),
    {
        self.derivation_rows.clear();
        proof {
            assert(self.derivations() =~= Seq::<DerivationView>::empty());
        }
    }

    /// Forgets the stored peak.
    pub fn clear_peak(&mut self)
        requires
            old(self).wf(),
        ensures
            final(self).wf(),
            final(self).spec_peak() is None,
            final(self).coins() == old(self).coins(),
            final(self).owned() == old(self).owned(),
            final(self).derivations() == old(self).derivations(),
    {
        self.peak = None;
    }

    /// Stores the wallet's peak, replacing any previous one.
    pub fn insert_peak(&mut self, height: u32, header_hash: Hash32)
        requires
            old(self).wf(),
            header_hash.wf(),
        ensures
            final(self).wf(),
            final(self).spec_peak() == Some((height, header_hash@)),
            final(self).coins() == old(self).coins(),
            final(self).owned() == old(self).owned(),
            final(self).derivations() == old(self).derivations(),
    {
        self.peak = Some(PeakInfo { height, header_hash });
    }
}

} // verus!
