//! In-memory cache of the latest known block per durability tier, plus a
//! bounded recent-history index used to decide whether a block identifier
//! is still fresh.

use vstd::prelude::*;

verus! {

/// Ledger position; monotonically increasing.
pub type Slot = u64;

/// How long an entry of the recent-history index stays usable, in
/// milliseconds of the caller's clock.
pub const BLOCK_VALIDITY_MS: u64 = 150_000;

/// Confirmation strength of a ledger query, from least to most final.
#[derive(Clone, Copy, Debug, PartialEq, Eq, Structural)]
pub enum DurabilityTier {
    Processed,
    Confirmed,
    Finalized,
}

/// Facts recorded about one block.
#[derive(Clone, Copy, Debug)]
pub struct BlockInformation {
    pub slot: Slot,
    pub block_height: u64,
    /// Arrival time in milliseconds of the caller's clock.
    pub instant: u64,
    pub processed_local_time: Option<u64>,
}

/// One record of the recent-history index: a block identifier and what is
/// known about that block.
#[derive(Debug)]
pub struct BlockEntry {
    pub blockhash: String,
    pub info: BlockInformation,
}

impl Clone for BlockEntry {
    fn clone(&self) -> (res: Self)
        ensures
            res == *self,
    {
        BlockEntry { blockhash: self.blockhash.clone(), info: self.info }
    }
}

/// An index entry is still usable at time `now` when it is no older than the
/// validity window.
pub open spec fn live(e: BlockEntry, now: u64) -> bool {
    e.info.instant + BLOCK_VALIDITY_MS >= now
}

/// The part of an index that survives a cleanup at time `now`, in order.
pub open spec fn live_entries(s: Seq<BlockEntry>, now: u64) -> Seq<BlockEntry> {
    s.filter(|e: BlockEntry| live(e, now))
}

/// No two entries of an index name the same block.
pub open spec fn unique_hashes(s: Seq<BlockEntry>) -> bool {
    forall|i: int, j: int|
        0 <= i < j < s.len() ==> (#[trigger] s[i]).blockhash@ != (#[trigger] s[j]).blockhash@
}

/// Whether some entry of the index names the block `h`.
pub open spec fn contains_hash(s: Seq<BlockEntry>, h: Seq<char>) -> bool {
    exists|i: int| 0 <= i < s.len() && (#[trigger] s[i]).blockhash@ == h
}

/// The position of the entry that names the block `h`.
pub open spec fn index_of_hash(s: Seq<BlockEntry>, h: Seq<char>) -> int {
    choose|i: int| 0 <= i < s.len() && (#[trigger] s[i]).blockhash@ == h
}

/// The index after recording `e`: the entry that already names the same
/// block is replaced, otherwise `e` is appended.
pub open spec fn upsert(s: Seq<BlockEntry>, e: BlockEntry) -> Seq<BlockEntry> {
    if contains_hash(s, e.blockhash@) {
        s.update(index_of_hash(s, e.blockhash@), e)
    } else {
        s.push(e)
    }
}

/// Whether a tier that currently holds `cur` accepts an update carrying
/// `info`: the latest pointer never moves to a lower block height.
pub open spec fn accepts(cur: Option<BlockEntry>, info: BlockInformation) -> bool {
    match cur {
        None => true,
        Some(e) => info.block_height >= e.info.block_height,
    }
}

/// Cache of the latest block per durability tier, with one recent-history
/// index per tier.
///
/// Each tier's latest pointer only ever advances: an update that carries a
/// lower block height than the stored one leaves the pointer unchanged
/// (its index entry is still recorded).
pub struct BlockStore {
    latest_processed: Option<BlockEntry>,
    latest_confirmed: Option<BlockEntry>,
    latest_finalized: Option<BlockEntry>,
    recent_processed: Vec<BlockEntry>,
    recent_confirmed: Vec<BlockEntry>,
    recent_finalized: Vec<BlockEntry>,
}

/// Everything `add_block` does: the tier's latest pointer advances when the
/// update is accepted, the tier's index records the entry, and the other
/// tiers are untouched.
pub open spec fn add_block_transition(
    pre: BlockStore,
    post: BlockStore,
    entry: BlockEntry,
    tier: DurabilityTier,
) -> bool {
    &&& post.latest_entry(tier) == if accepts(pre.latest_entry(tier), entry.info) {
        Some(entry)
    } else {
        pre.latest_entry(tier)
    }
    &&& post.recent(tier) == upsert(pre.recent(tier), entry)
    &&& forall|t: DurabilityTier|
        t != tier ==> #[trigger] post.latest_entry(t) == pre.latest_entry(t)
    &&& forall|t: DurabilityTier| t != tier ==> #[trigger] post.recent(t) == pre.recent(t)
}

/// Everything `cleanup` does: each tier's index keeps exactly its live
/// entries, in order; the latest pointers are untouched.
pub open spec fn cleanup_transition(pre: BlockStore, post: BlockStore, now: u64) -> bool {
    &&& forall|t: DurabilityTier| #[trigger] post.recent(t) == live_entries(pre.recent(t), now)
    &&& forall|t: DurabilityTier| #[trigger] post.latest_entry(t) == pre.latest_entry(t)
}

impl BlockStore {
    /// The latest pointer of one tier.
    pub closed spec fn latest_entry(self, tier: DurabilityTier) -> Option<BlockEntry> {
        match tier {
            DurabilityTier::Processed => self.latest_processed,
            DurabilityTier::Confirmed => self.latest_confirmed,
            DurabilityTier::Finalized => self.latest_finalized,
        }
    }

    /// The recent-history index of one tier, oldest first.
    pub closed spec fn recent(self, tier: DurabilityTier) -> Seq<BlockEntry> {
        match tier {
            DurabilityTier::Processed => self.recent_processed@,
            DurabilityTier::Confirmed => self.recent_confirmed@,
            DurabilityTier::Finalized => self.recent_finalized@,
        }
    }

    /// What `latest` answers for one tier.
    pub open spec fn latest_spec(self, tier: DurabilityTier) -> Option<(String, u64)> {
        match self.latest_entry(tier) {
            Some(e) => Some((e.blockhash, e.info.block_height)),
            None => None,
        }
    }

    /// Block identifiers are unique within each tier's index.
    pub open spec fn wf(self) -> bool {
        forall|tier: DurabilityTier| unique_hashes(#[trigger] self.recent(tier))
    }

    /// An empty store: nothing is known about any tier.
    pub fn new() -> (s: Self)
        ensures
            s.wf(),
            forall|tier: DurabilityTier| #[trigger] s.latest_entry(tier) is None,
            forall|tier: DurabilityTier| (#[trigger] s.recent(tier)).len() == 0,
    {
        BlockStore {
            latest_processed: None,
            latest_confirmed: None,
            latest_finalized: None,
            recent_processed: Vec::new(),
            recent_confirmed: Vec::new(),
            recent_finalized: Vec::new(),
        }
    }

    /// What the latest pointer of a tier answers: absent until seeded.
    pub fn get_latest(&self, tier: DurabilityTier) -> (r: Option<BlockInformation>)
        ensures
            r == match self.latest_entry(tier) {
                Some(e) => Some(e.info),
                None => None::<BlockInformation>,
            },
    {
        let entry = match tier {
            DurabilityTier::Processed => &self.latest_processed,
            DurabilityTier::Confirmed => &self.latest_confirmed,
            DurabilityTier::Finalized => &self.latest_finalized,
        };
        match entry {
            Some(e) => Some(e.info),
            None => None,
        }
    }

    /// The freshness answer for one tier: the latest block's identifier and
    /// height.
    pub fn latest(&self, tier: DurabilityTier) -> (r: Option<(String, u64)>)
        ensures
            r == self.latest_spec(tier),
    {
        let entry = match tier {
            DurabilityTier::Processed => &self.latest_processed,
            DurabilityTier::Confirmed => &self.latest_confirmed,
            DurabilityTier::Finalized => &self.latest_finalized,
        };
        match entry {
            Some(e) => Some((e.blockhash.clone(), e.info.block_height)),
            None => None,
        }
    }

    /// Records a block for one tier: upserts the tier's index entry and, when
    /// the height is not below the stored one, advances the latest pointer.
    pub fn add_block(&mut self, blockhash: String, info: BlockInformation, tier: DurabilityTier)
        requires
            old(self).wf(),
        ensures
            final(self).wf(),
            add_block_transition(
                *old(self),
                *final(self),
                BlockEntry { blockhash, info },
                tier,
            ),
    {
        proof {
            assert(unique_hashes(old(self).recent(DurabilityTier::Processed)));
            assert(unique_hashes(old(self).recent(DurabilityTier::Confirmed)));
            assert(unique_hashes(old(self).recent(DurabilityTier::Finalized)));
        }
        let entry = BlockEntry { blockhash, info };
        let accept = match tier {
            DurabilityTier::Processed => height_accepted(&self.latest_processed, &entry.info),
            DurabilityTier::Confirmed => height_accepted(&self.latest_confirmed, &entry.info),
            DurabilityTier::Finalized => height_accepted(&self.latest_finalized, &entry.info),
        };
        if accept {
            let pointer = entry.clone();
            match tier {
                DurabilityTier::Processed => self.latest_processed = Some(pointer),
                DurabilityTier::Confirmed => self.latest_confirmed = Some(pointer),
                DurabilityTier::Finalized => self.latest_finalized = Some(pointer),
            }
        }
        match tier {
            DurabilityTier::Processed => upsert_entry(&mut self.recent_processed, entry),
            DurabilityTier::Confirmed => upsert_entry(&mut self.recent_confirmed, entry),
            DurabilityTier::Finalized => upsert_entry(&mut self.recent_finalized, entry),
        }
        proof {
            assert forall|t: DurabilityTier| unique_hashes(#[trigger] self.recent(t)) by {
                assert(unique_hashes(self.recent(DurabilityTier::Processed)));
                assert(unique_hashes(self.recent(DurabilityTier::Confirmed)));
                assert(unique_hashes(self.recent(DurabilityTier::Finalized)));
            }
        }
    }

    /// Whether a block identifier is still usable: it names an entry of the
    /// tier's recent-history index.
    pub fn contains_block(&self, blockhash: &String, tier: DurabilityTier) -> (r: bool)
        ensures
            r == contains_hash(self.recent(tier), blockhash@),
    {
        match tier {
            DurabilityTier::Processed => find_hash(&self.recent_processed, blockhash),
            DurabilityTier::Confirmed => find_hash(&self.recent_confirmed, blockhash),
            DurabilityTier::Finalized => find_hash(&self.recent_finalized, blockhash),
        }
    }

    /// How many entries one tier's recent-history index holds.
    pub fn recent_len(&self, tier: DurabilityTier) -> (n: usize)
        ensures
            n == self.recent(tier).len(),
    {
        match tier {
            DurabilityTier::Processed => self.recent_processed.len(),
            DurabilityTier::Confirmed => self.recent_confirmed.len(),
            DurabilityTier::Finalized => self.recent_finalized.len(),
        }
    }

    /// Drops every index entry older than the validity window, each tier
    /// independently; the latest pointers stay.
    pub fn cleanup(&mut self, now: u64)
        requires
            old(self).wf(),
        ensures
            final(self).wf(),
            cleanup_transition(*old(self), *final(self), now),
    {
        proof {
            assert(unique_hashes(old(self).recent(DurabilityTier::Processed)));
            assert(unique_hashes(old(self).recent(DurabilityTier::Confirmed)));
            assert(unique_hashes(old(self).recent(DurabilityTier::Finalized)));
            lemma_live_entries_unique(self.recent_processed@, now);
            lemma_live_entries_unique(self.recent_confirmed@, now);
            lemma_live_entries_unique(self.recent_finalized@, now);
        }
        retain_live(&mut self.recent_processed, now);
        retain_live(&mut self.recent_confirmed, now);
        retain_live(&mut self.recent_finalized, now);
        proof {
            assert forall|t: DurabilityTier| unique_hashes(#[trigger] self.recent(t)) by {
                assert(unique_hashes(self.recent(DurabilityTier::Processed)));
                assert(unique_hashes(self.recent(DurabilityTier::Confirmed)));
                assert(unique_hashes(self.recent(DurabilityTier::Finalized)));
            }
        }
    }
}

/// Whether the new information's height is accepted against the current
/// latest pointer.
fn height_accepted(cur: &Option<BlockEntry>, info: &BlockInformation) -> (r: bool)
    ensures
        r == accepts(*cur, *info),
{
    match cur {
        None => true,
        Some(e) => info.block_height >= e.info.block_height,
    }
}

/// Records `entry` in one index: replaces the entry that names the same
/// block, or appends.
fn upsert_entry(v: &mut Vec<BlockEntry>, entry: BlockEntry)
    requires
        unique_hashes(old(v)@),
    ensures
        unique_hashes(final(v)@),
        final(v)@ == upsert(old(v)@, entry),
{
    let n = v.len();
    let mut i: usize = 0;
    while i < n
        invariant
            n == v@.len(),
            i <= n,
            *v == *old(v),
            unique_hashes(v@),
            forall|j: int| 0 <= j < i ==> (#[trigger] v@[j]).blockhash@ != entry.blockhash@,
        decreases n - i,
    {
        if v[i].blockhash == entry.blockhash {
            proof {
                assert(contains_hash(v@, entry.blockhash@));
                let k = index_of_hash(v@, entry.blockhash@);
                assert(0 <= k < v@.len() && v@[k].blockhash@ == entry.blockhash@);
                assert(k == i) by {
                    if k < i as int {
                        assert(v@[k].blockhash@ != entry.blockhash@);
                    }
                    if (i as int) < k {
                        assert(v@[i as int].blockhash@ != v@[k].blockhash@);
                    }
                }
            }
            v[i] = entry;
            return ;
        }
        i += 1;
    }
    proof {
        assert(!contains_hash(v@, entry.blockhash@));
    }
    v.push(entry);
}

/// Whether some entry of one index names the block.
fn find_hash(v: &Vec<BlockEntry>, blockhash: &String) -> (r: bool)
    ensures
        r == contains_hash(v@, blockhash@),
{
    let n = v.len();
    let mut i: usize = 0;
    while i < n
        invariant
            n == v@.len(),
            i <= n,
            forall|j: int| 0 <= j < i ==> (#[trigger] v@[j]).blockhash@ != blockhash@,
        decreases n - i,
    {
        if v[i].blockhash == *blockhash {
            proof {
                assert((#[trigger] v@[i as int]).blockhash@ == blockhash@);
            }
            return true;
        }
        i += 1;
    }
    false
}

/// Keeps exactly the live entries of one index, in order.
fn retain_live(v: &mut Vec<BlockEntry>, now: u64)
    ensures
        final(v)@ == live_entries(old(v)@, now),
{
    let mut kept: Vec<BlockEntry> = Vec::new();
    let n = v.len();
    let mut i: usize = 0;
    while i < n
        invariant
            n == v@.len(),
            i <= n,
            *v == *old(v),
            kept@ == live_entries(v@.take(i as int), now),
        decreases n - i,
    {
        let e = &v[i];
        let is_live = if e.info.instant >= now {
            true
        } else {
            now - e.info.instant <= BLOCK_VALIDITY_MS
        };
        proof {
            assert(is_live == live(v@[i as int], now));
            lemma_filter_take_succ(v@, |x: BlockEntry| live(x, now), i as int);
        }
        if is_live {
            kept.push(e.clone());
        }
        i += 1;
    }
    proof {
        assert(v@.take(n as int) =~= v@);
    }
    *v = kept;
}

/// Taking one more element extends the filtered prefix by that element
/// exactly when it satisfies the predicate.
pub(crate) proof fn lemma_filter_take_succ<A>(s: Seq<A>, pred: spec_fn(A) -> bool, i: int)
    requires
        0 <= i < s.len(),
    ensures
        s.take(i + 1).filter(pred) == if pred(s[i]) {
            s.take(i).filter(pred).push(s[i])
        } else {
            s.take(i).filter(pred)
        },
{
    Seq::<A>::lemma_take_succ(s, i);
    Seq::<A>::filter_distributes_over_add(s.take(i), seq![s[i]], pred);
    assert(seq![s[i]].filter(pred) == if pred(s[i]) { seq![s[i]] } else { Seq::<A>::empty() })
        by {
        reveal_with_fuel(Seq::filter, 2);
        assert(seq![s[i]].drop_last() =~= Seq::<A>::empty());
    }
    if pred(s[i]) {
        assert(s.take(i).filter(pred) + seq![s[i]] =~= s.take(i).filter(pred).push(s[i]));
    } else {
        assert(s.take(i).filter(pred) + Seq::<A>::empty() =~= s.take(i).filter(pred));
    }
}

/// A cleanup never makes two index entries name the same block.
proof fn lemma_live_entries_unique(s: Seq<BlockEntry>, now: u64)
    requires
        unique_hashes(s),
    ensures
        unique_hashes(live_entries(s, now)),
    decreases s.len(),
{
    reveal(Seq::filter);
    let pred = |e: BlockEntry| live(e, now);
    let out = s.filter(pred);
    if s.len() > 0 {
        let head = s.drop_last();
        assert(unique_hashes(head)) by {
            assert(forall|i: int| 0 <= i < head.len() ==> head[i] == s[i]);
        }
        lemma_live_entries_unique(head, now);
        let sub = head.filter(pred);
        if pred(s.last()) {
            assert forall|i: int, j: int|
                0 <= i < j < out.len() implies (#[trigger] out[i]).blockhash@ != (
            #[trigger] out[j]).blockhash@ by {
                if j < out.len() - 1 {
                    assert(out[i] == sub[i] && out[j] == sub[j]);
                } else {
                    assert(out[j] == s.last());
                    assert(sub.contains(sub[i]));
                    Seq::<BlockEntry>::lemma_filter_contains_rev(head, pred, sub[i]);
                    let k = choose|k: int| 0 <= k < head.len() && head[k] == sub[i];
                    assert(s[k] == sub[i] && s[s.len() - 1] == s.last());
                }
            }
        }
    }
}

/// After `add_block` with a height the tier accepts, `latest` answers that
/// block's identifier and height.
pub proof fn lemma_add_block_then_latest(
    pre: BlockStore,
    post: BlockStore,
    entry: BlockEntry,
    tier: DurabilityTier,
)
    requires
        add_block_transition(pre, post, entry, tier),
        accepts(pre.latest_entry(tier), entry.info),
    ensures
        post.latest_spec(tier) == Some((entry.blockhash, entry.info.block_height)),
{
}

/// Law: for a fixed tier, the block height that `latest` observes never
/// decreases — recording a block either advances the tier's pointer to a
/// height at least as great, or leaves it where it was.
pub proof fn lemma_latest_height_never_decreases(
    pre: BlockStore,
    post: BlockStore,
    entry: BlockEntry,
    tier: DurabilityTier,
    observed: DurabilityTier,
)
    requires
        add_block_transition(pre, post, entry, tier),
    ensures
        match (pre.latest_entry(observed), post.latest_entry(observed)) {
            (Some(a), Some(b)) => b.info.block_height >= a.info.block_height,
            (Some(_), None) => false,
            _ => true,
        },
{
    if observed != tier {
        assert(post.latest_entry(observed) == pre.latest_entry(observed));
    }
}

/// A cleanup removes exactly the entries older than the validity window,
/// each tier independently: an expired entry is gone, a live one survives,
/// and nothing else appears.
pub proof fn lemma_cleanup_removes_exactly_expired(
    pre: BlockStore,
    post: BlockStore,
    now: u64,
    tier: DurabilityTier,
)
    requires
        cleanup_transition(pre, post, now),
    ensures
        forall|i: int|
            0 <= i < pre.recent(tier).len() && !live(#[trigger] pre.recent(tier)[i], now)
                ==> !post.recent(tier).contains(pre.recent(tier)[i]),
        forall|i: int|
            0 <= i < pre.recent(tier).len() && live(#[trigger] pre.recent(tier)[i], now)
                ==> post.recent(tier).contains(pre.recent(tier)[i]),
        forall|j: int|
            0 <= j < post.recent(tier).len() ==> live(#[trigger] post.recent(tier)[j], now)
                && pre.recent(tier).contains(post.recent(tier)[j]),
{
    let s = pre.recent(tier);
    let pred = |e: BlockEntry| live(e, now);
    let out = s.filter(pred);
    assert(post.recent(tier) == out);
    assert forall|i: int|
        0 <= i < s.len() && !live(#[trigger] s[i], now) implies !out.contains(s[i]) by {
        if out.contains(s[i]) {
            let j = choose|j: int| 0 <= j < out.len() && out[j] == s[i];
            Seq::<BlockEntry>::lemma_filter_pred(s, pred, j);
        }
    }
    assert forall|i: int|
        0 <= i < s.len() && live(#[trigger] s[i], now) implies out.contains(s[i]) by {
        Seq::<BlockEntry>::lemma_filter_contains(s, pred, i);
    }
    assert forall|j: int|
        0 <= j < out.len() implies live(#[trigger] out[j], now) && s.contains(out[j]) by {
        Seq::<BlockEntry>::lemma_filter_pred(s, pred, j);
        assert(out.contains(out[j]));
        Seq::<BlockEntry>::lemma_filter_contains_rev(s, pred, out[j]);
    }
}

} // verus!
