//! Derivation of per-transaction and per-block facts from one fetched
//! block, and the recording of that block in the store.
//!
//! The caller fetches a block from the upstream source and hands it over as
//! plain values ([`FetchedBlock`]); everything derived from it is verified
//! here. A response that lacks a block height or a transaction list yields
//! the invalid-block sentinel — an expected outcome, not an error. A
//! transaction without execution metadata or without a decodable payload is
//! skipped; the rest of the block is still processed.

use vstd::prelude::*;

use crate::block_store::{
    add_block_transition, cleanup_transition, BlockEntry, BlockInformation, BlockStore,
    DurabilityTier, Slot,
};
use crate::compute_budget::{parse_compute_budget_spec, parse_compute_budget_instruction,
    ComputeBudgetInstruction};

verus! {

/// What block production pays a reward for.
#[derive(Clone, Copy, Debug, PartialEq, Eq, Structural)]
pub enum RewardKind {
    Fee,
    Rent,
    Staking,
    Voting,
}

/// One entry of a block's reward list.
#[derive(Debug)]
pub struct Reward {
    pub pubkey: String,
    pub reward_type: Option<RewardKind>,
}

/// What one decoded instruction shows: whether it targets the
/// compute-budget program, and its data bytes.
#[derive(Debug)]
pub struct InstructionFacts {
    pub targets_compute_budget: bool,
    pub data: Vec<u8>,
}

/// One decoded transaction: its first signature and its instructions.
#[derive(Debug)]
pub struct DecodedTransaction {
    pub signature: String,
    pub instructions: Vec<InstructionFacts>,
}

/// Execution metadata of one transaction.
#[derive(Debug)]
pub struct TransactionMeta {
    pub err: Option<String>,
    pub compute_units_consumed: Option<u64>,
}

/// One transaction of a fetched block. Either part may be absent: metadata
/// that the upstream did not return, or a payload that did not decode.
#[derive(Debug)]
pub struct FetchedTransaction {
    pub meta: Option<TransactionMeta>,
    pub decoded: Option<DecodedTransaction>,
}

/// One block as fetched from the upstream source, reduced to plain values.
#[derive(Debug)]
pub struct FetchedBlock {
    pub block_height: Option<u64>,
    pub transactions: Option<Vec<FetchedTransaction>>,
    pub blockhash: String,
    pub parent_slot: Slot,
    pub rewards: Option<Vec<Reward>>,
}

/// Facts derived from one transaction. Immutable once constructed.
#[derive(Debug)]
pub struct TransactionInfo {
    pub signature: String,
    pub err: Option<String>,
    pub status: Result<(), String>,
    pub cu_requested: Option<i64>,
    pub prioritization_fees: Option<i64>,
    pub cu_consumed: Option<i64>,
}

/// What `process` returns. When `invalid_block` is set, every other field
/// carries a sentinel value and must not be read as real data.
#[derive(Debug)]
pub struct BlockProcessorResult {
    pub invalid_block: bool,
    pub transaction_infos: Vec<TransactionInfo>,
    pub leader_id: Option<String>,
    pub blockhash: String,
    pub parent_slot: Slot,
}

/// The sentinel that stands for a skipped or empty ledger slot.
pub open spec fn is_invalid_sentinel(r: BlockProcessorResult) -> bool {
    &&& r.invalid_block == true
    &&& r.transaction_infos@.len() == 0
    &&& r.leader_id is None
    &&& r.blockhash@.len() == 0
    &&& r.parent_slot == 0
}

impl BlockProcessorResult {
    /// The result reported for a block whose response lacks a height or a
    /// transaction list.
    pub fn invalid() -> (r: Self)
        ensures
            is_invalid_sentinel(r),
    {
        BlockProcessorResult {
            invalid_block: true,
            transaction_infos: Vec::new(),
            leader_id: None,
            blockhash: String::new(),
            parent_slot: 0,
        }
    }
}

/// The first legacy "request units" instruction aimed at the compute-budget
/// program: its unit count and additional fee.
pub open spec fn legacy_request_spec(instrs: Seq<InstructionFacts>) -> Option<(u32, u32)>
    decreases instrs.len(),
{
    if instrs.len() == 0 {
        None
    } else if instrs[0].targets_compute_budget {
        match parse_compute_budget_spec(instrs[0].data@) {
            Some(
                ComputeBudgetInstruction::RequestUnitsDeprecated { units, additional_fee },
            ) => Some((units, additional_fee)),
            _ => legacy_request_spec(instrs.drop_first()),
        }
    } else {
        legacy_request_spec(instrs.drop_first())
    }
}

/// The first "set unit limit" instruction aimed at the compute-budget
/// program.
pub open spec fn unit_limit_spec(instrs: Seq<InstructionFacts>) -> Option<u32>
    decreases instrs.len(),
{
    if instrs.len() == 0 {
        None
    } else if instrs[0].targets_compute_budget {
        match parse_compute_budget_spec(instrs[0].data@) {
            Some(ComputeBudgetInstruction::SetComputeUnitLimit(limit)) => Some(limit),
            _ => unit_limit_spec(instrs.drop_first()),
        }
    } else {
        unit_limit_spec(instrs.drop_first())
    }
}

/// The first "set unit price" instruction aimed at the compute-budget
/// program.
pub open spec fn unit_price_spec(instrs: Seq<InstructionFacts>) -> Option<u64>
    decreases instrs.len(),
{
    if instrs.len() == 0 {
        None
    } else if instrs[0].targets_compute_budget {
        match parse_compute_budget_spec(instrs[0].data@) {
            Some(ComputeBudgetInstruction::SetComputeUnitPrice(price)) => Some(price),
            _ => unit_price_spec(instrs.drop_first()),
        }
    } else {
        unit_price_spec(instrs.drop_first())
    }
}

/// A value read from the chain, narrowed to the signed width the facts
/// carry; values beyond that width saturate.
pub open spec fn to_i64_saturating(v: u64) -> i64 {
    if v <= i64::MAX as u64 {
        v as i64
    } else {
        i64::MAX
    }
}

/// The requested compute units of a transaction: the legacy instruction
/// wins over the current "set unit limit" form whenever both are present.
pub open spec fn cu_requested_spec(instrs: Seq<InstructionFacts>) -> Option<i64> {
    match legacy_request_spec(instrs) {
        Some((units, additional_fee)) => Some(units as i64),
        None => match unit_limit_spec(instrs) {
            Some(limit) => Some(limit as i64),
            None => None,
        },
    }
}

/// The prioritization fee of a transaction: a legacy instruction with a
/// positive additional fee yields floor(units * 1000 / additional_fee) and
/// overrides the current "set unit price" form; otherwise that form's price
/// stands.
pub open spec fn prioritization_fee_spec(instrs: Seq<InstructionFacts>) -> Option<i64> {
    let from_price = match unit_price_spec(instrs) {
        Some(price) => Some(to_i64_saturating(price)),
        None => None,
    };
    match legacy_request_spec(instrs) {
        Some((units, additional_fee)) => if additional_fee > 0 {
            Some(((units as int) * 1000 / (additional_fee as int)) as i64)
        } else {
            from_price
        },
        None => from_price,
    }
}

/// The consumed compute units reported by execution metadata.
pub open spec fn cu_consumed_spec(consumed: Option<u64>) -> Option<i64> {
    match consumed {
        Some(v) => Some(to_i64_saturating(v)),
        None => None,
    }
}

/// A transaction contributes facts exactly when it has execution metadata
/// and a decodable payload.
pub open spec fn is_complete(tx: FetchedTransaction) -> bool {
    tx.meta is Some && tx.decoded is Some
}

/// The facts derived from one transaction, or nothing for an incomplete
/// one.
pub open spec fn transaction_info_spec(tx: FetchedTransaction) -> Option<TransactionInfo> {
    match (tx.meta, tx.decoded) {
        (Some(meta), Some(d)) => Some(
            TransactionInfo {
                signature: d.signature,
                err: meta.err,
                status: match meta.err {
                    None => Ok(()),
                    Some(e) => Err(e),
                },
                cu_requested: cu_requested_spec(d.instructions@),
                prioritization_fees: prioritization_fee_spec(d.instructions@),
                cu_consumed: cu_consumed_spec(meta.compute_units_consumed),
            },
        ),
        _ => None,
    }
}

/// The facts of a block's transactions, in block order, one per complete
/// transaction.
pub open spec fn infos_spec(txs: Seq<FetchedTransaction>) -> Seq<TransactionInfo>
    decreases txs.len(),
{
    if txs.len() == 0 {
        Seq::empty()
    } else {
        let rest = infos_spec(txs.drop_last());
        match transaction_info_spec(txs.last()) {
            Some(info) => rest.push(info),
            None => rest,
        }
    }
}

/// How many of a block's transactions are complete.
pub open spec fn complete_count(txs: Seq<FetchedTransaction>) -> nat
    decreases txs.len(),
{
    if txs.len() == 0 {
        0
    } else {
        complete_count(txs.drop_last()) + (if is_complete(txs.last()) {
            1nat
        } else {
            0nat
        })
    }
}

/// Whether a reward entry is the block-production fee reward.
pub open spec fn is_fee_reward(r: Reward) -> bool {
    r.reward_type == Some(RewardKind::Fee)
}

/// The recipient of the first fee-type reward: the block's leader.
pub open spec fn leader_spec(rewards: Seq<Reward>) -> Option<String>
    decreases rewards.len(),
{
    if rewards.len() == 0 {
        None
    } else if is_fee_reward(rewards[0]) {
        Some(rewards[0].pubkey)
    } else {
        leader_spec(rewards.drop_first())
    }
}

/// The leader derived from a block's reward list, when one was returned.
pub open spec fn leader_of(rewards: Option<Vec<Reward>>) -> Option<String> {
    match rewards {
        Some(rs) => leader_spec(rs@),
        None => None,
    }
}

/// How `process` touches the store: the fetched block is recorded at the
/// requested tier when a store is configured, and nothing else changes.
pub open spec fn store_updated(
    pre: Option<BlockStore>,
    post: Option<BlockStore>,
    entry: BlockEntry,
    tier: DurabilityTier,
) -> bool {
    match pre {
        None => post == pre,
        Some(s) => match post {
            Some(s2) => add_block_transition(s, s2, entry, tier),
            None => false,
        },
    }
}

/// Fetch-side driver state: the optional store that processed blocks are
/// recorded into.
pub struct BlockProcessor {
    block_store: Option<BlockStore>,
}

impl BlockProcessor {
    /// The configured store.
    pub closed spec fn store(self) -> Option<BlockStore> {
        self.block_store
    }

    /// The configured store, when present, keeps its invariant.
    pub open spec fn wf(self) -> bool {
        match self.store() {
            Some(s) => s.wf(),
            None => true,
        }
    }

    pub fn new(block_store: Option<BlockStore>) -> (r: Self)
        requires
            match block_store {
                Some(s) => s.wf(),
                None => true,
            },
        ensures
            r.wf(),
            r.store() == block_store,
    {
        BlockProcessor { block_store }
    }

    /// Derives the block's facts and records the block.
    ///
    /// A response without a height or a transaction list yields the
    /// invalid-block sentinel and leaves the store alone. Otherwise the
    /// block is recorded at the requested tier (when a store is
    /// configured), and the result carries one entry per complete
    /// transaction, the leader read off the fee reward, the block's
    /// identifier and its parent slot.
    pub fn process(
        &mut self,
        slot: Slot,
        tier: DurabilityTier,
        fetched: FetchedBlock,
        now: u64,
    ) -> (r: BlockProcessorResult)
        requires
            old(self).wf(),
        ensures
            final(self).wf(),
            (fetched.block_height is None || fetched.transactions is None) ==> (
            is_invalid_sentinel(r) && *final(self) == *old(self)),
            (fetched.block_height is Some && fetched.transactions is Some) ==> ({
                &&& r.invalid_block == false
                &&& r.blockhash == fetched.blockhash
                &&& r.parent_slot == fetched.parent_slot
                &&& r.leader_id == leader_of(fetched.rewards)
                &&& r.transaction_infos@ == infos_spec((fetched.transactions->Some_0)@)
                &&& store_updated(
                    old(self).store(),
                    final(self).store(),
                    (BlockEntry {
                        blockhash: fetched.blockhash,
                        info: (BlockInformation {
                            slot,
                            block_height: fetched.block_height->Some_0,
                            instant: now,
                            processed_local_time: None,
                        }),
                    }),
                    tier,
                )
            }),
    {
        let FetchedBlock { block_height, transactions, blockhash, parent_slot, rewards } = fetched;
        let block_height = match block_height {
            Some(h) => h,
            None => {
                return BlockProcessorResult::invalid();
            },
        };
        let transactions = match transactions {
            Some(t) => t,
            None => {
                return BlockProcessorResult::invalid();
            },
        };
        match &mut self.block_store {
            Some(store) => {
                store.add_block(
                    blockhash.clone(),
                    BlockInformation {
                        slot,
                        block_height,
                        instant: now,
                        processed_local_time: None,
                    },
                    tier,
                );
            },
            None => {},
        }
        let transaction_infos = collect_transaction_infos(&transactions);
        let leader_id = match &rewards {
            Some(rs) => find_leader(rs),
            None => None,
        };
        BlockProcessorResult {
            invalid_block: false,
            transaction_infos,
            leader_id,
            blockhash,
            parent_slot,
        }
    }

    /// Purges index entries older than the validity window from the
    /// configured store; with no store this does nothing.
    pub fn cleanup_store(&mut self, now: u64)
        requires
            old(self).wf(),
        ensures
            final(self).wf(),
            match (old(self).store(), final(self).store()) {
                (Some(pre), Some(post)) => cleanup_transition(pre, post, now),
                (None, None) => true,
                _ => false,
            },
    {
        match &mut self.block_store {
            Some(store) => store.cleanup(now),
            None => {},
        }
    }

    /// Hands the configured store back, for reading what was recorded.
    pub fn into_block_store(self) -> (r: Option<BlockStore>)
        ensures
            r == self.store(),
    {
        self.block_store
    }

    /// Records a block obtained by the caller's bootstrap query. The seeded
    /// entry always goes to the lowest (least final) tier, whatever tier
    /// the caller asked the upstream for.
    pub fn poll_latest_block(&mut self, blockhash: String, info: BlockInformation)
        requires
            old(self).wf(),
        ensures
            final(self).wf(),
            store_updated(
                old(self).store(),
                final(self).store(),
                (BlockEntry { blockhash, info }),
                DurabilityTier::Processed,
            ),
    {
        match &mut self.block_store {
            Some(store) => {
                store.add_block(blockhash, info, DurabilityTier::Processed);
            },
            None => {},
        }
    }
}

/// The first legacy "request units" instruction, as `legacy_request_spec`
/// names it.
fn find_legacy_request(instrs: &Vec<InstructionFacts>) -> (r: Option<(u32, u32)>)
    ensures
        r == legacy_request_spec(instrs@),
{
    let n = instrs.len();
    let mut j: usize = 0;
    proof {
        assert(instrs@.skip(0) =~= instrs@);
    }
    while j < n
        invariant
            n == instrs@.len(),
            j <= n,
            legacy_request_spec(instrs@) == legacy_request_spec(instrs@.skip(j as int)),
        decreases n - j,
    {
        proof {
            assert(instrs@.skip(j as int)[0] == instrs@[j as int]);
            assert(instrs@.skip(j as int).drop_first() =~= instrs@.skip(j as int + 1));
        }
        let inst = &instrs[j];
        if inst.targets_compute_budget {
            match parse_compute_budget_instruction(&inst.data) {
                Some(ComputeBudgetInstruction::RequestUnitsDeprecated { units, additional_fee }) => {
                    return Some((units, additional_fee));
                },
                _ => {},
            }
        }
        j += 1;
    }
    proof {
        assert(instrs@.skip(n as int) =~= Seq::<InstructionFacts>::empty());
    }
    None
}

/// The first "set unit limit" instruction, as `unit_limit_spec` names it.
fn find_unit_limit(instrs: &Vec<InstructionFacts>) -> (r: Option<u32>)
    ensures
        r == unit_limit_spec(instrs@),
{
    let n = instrs.len();
    let mut j: usize = 0;
    proof {
        assert(instrs@.skip(0) =~= instrs@);
    }
    while j < n
        invariant
            n == instrs@.len(),
            j <= n,
            unit_limit_spec(instrs@) == unit_limit_spec(instrs@.skip(j as int)),
        decreases n - j,
    {
        proof {
            assert(instrs@.skip(j as int)[0] == instrs@[j as int]);
            assert(instrs@.skip(j as int).drop_first() =~= instrs@.skip(j as int + 1));
        }
        let inst = &instrs[j];
        if inst.targets_compute_budget {
            match parse_compute_budget_instruction(&inst.data) {
                Some(ComputeBudgetInstruction::SetComputeUnitLimit(limit)) => {
                    return Some(limit);
                },
                _ => {},
            }
        }
        j += 1;
    }
    proof {
        assert(instrs@.skip(n as int) =~= Seq::<InstructionFacts>::empty());
    }
    None
}

/// The first "set unit price" instruction, as `unit_price_spec` names it.
fn find_unit_price(instrs: &Vec<InstructionFacts>) -> (r: Option<u64>)
    ensures
        r == unit_price_spec(instrs@),
{
    let n = instrs.len();
    let mut j: usize = 0;
    proof {
        assert(instrs@.skip(0) =~= instrs@);
    }
    while j < n
        invariant
            n == instrs@.len(),
            j <= n,
            unit_price_spec(instrs@) == unit_price_spec(instrs@.skip(j as int)),
        decreases n - j,
    {
        proof {
            assert(instrs@.skip(j as int)[0] == instrs@[j as int]);
            assert(instrs@.skip(j as int).drop_first() =~= instrs@.skip(j as int + 1));
        }
        let inst = &instrs[j];
        if inst.targets_compute_budget {
            match parse_compute_budget_instruction(&inst.data) {
                Some(ComputeBudgetInstruction::SetComputeUnitPrice(price)) => {
                    return Some(price);
                },
                _ => {},
            }
        }
        j += 1;
    }
    proof {
        assert(instrs@.skip(n as int) =~= Seq::<InstructionFacts>::empty());
    }
    None
}

/// The compute-budget facts of one transaction's instructions: requested
/// units and prioritization fee.
fn derive_budget(instrs: &Vec<InstructionFacts>) -> (r: (Option<i64>, Option<i64>))
    ensures
        r.0 == cu_requested_spec(instrs@),
        r.1 == prioritization_fee_spec(instrs@),
{
    let legacy = find_legacy_request(instrs);
    let limit = find_unit_limit(instrs);
    let price = find_unit_price(instrs);
    let mut cu_requested: Option<i64> = match limit {
        Some(l) => Some(l as i64),
        None => None,
    };
    let mut prioritization_fees: Option<i64> = match price {
        Some(p) => if p <= i64::MAX as u64 {
            Some(p as i64)
        } else {
            Some(i64::MAX)
        },
        None => None,
    };
    if let Some((units, additional_fee)) = legacy {
        cu_requested = Some(units as i64);
        if additional_fee > 0 {
            prioritization_fees = Some(((units as u64) * 1000 / (additional_fee as u64)) as i64);
        }
    }
    (cu_requested, prioritization_fees)
}

/// The facts of one transaction, or nothing for an incomplete one.
pub fn transaction_info(tx: &FetchedTransaction) -> (r: Option<TransactionInfo>)
    ensures
        r == transaction_info_spec(*tx),
{
    match (&tx.meta, &tx.decoded) {
        (Some(meta), Some(d)) => {
            let (cu_requested, prioritization_fees) = derive_budget(&d.instructions);
            let err: Option<String> = match &meta.err {
                Some(e) => Some(e.clone()),
                None => None,
            };
            let status: Result<(), String> = match &meta.err {
                Some(e) => Err(e.clone()),
                None => Ok(()),
            };
            let cu_consumed: Option<i64> = match meta.compute_units_consumed {
                Some(v) => if v <= i64::MAX as u64 {
                    Some(v as i64)
                } else {
                    Some(i64::MAX)
                },
                None => None,
            };
            Some(
                TransactionInfo {
                    signature: d.signature.clone(),
                    err,
                    status,
                    cu_requested,
                    prioritization_fees,
                    cu_consumed,
                },
            )
        },
        _ => None,
    }
}

/// The facts of a block's transactions, in block order; incomplete
/// transactions are skipped, never an error.
pub fn collect_transaction_infos(txs: &Vec<FetchedTransaction>) -> (r: Vec<TransactionInfo>)
    ensures
        r@ == infos_spec(txs@),
{
    let mut infos: Vec<TransactionInfo> = Vec::new();
    let n = txs.len();
    let mut i: usize = 0;
    while i < n
        invariant
            n == txs@.len(),
            i <= n,
            infos@ == infos_spec(txs@.take(i as int)),
        decreases n - i,
    {
        proof {
            let t = txs@.take(i as int + 1);
            assert(t.drop_last() =~= txs@.take(i as int));
            assert(t.last() == txs@[i as int]);
        }
        match transaction_info(&txs[i]) {
            Some(info) => infos.push(info),
            None => {},
        }
        i += 1;
    }
    proof {
        assert(txs@.take(n as int) =~= txs@);
    }
    infos
}

/// The block's leader: the recipient of the first fee-type reward, when
/// the list holds one.
pub fn find_leader(rewards: &Vec<Reward>) -> (r: Option<String>)
    ensures
        r == leader_spec(rewards@),
{
    let n = rewards.len();
    let mut j: usize = 0;
    proof {
        assert(rewards@.skip(0) =~= rewards@);
    }
    while j < n
        invariant
            n == rewards@.len(),
            j <= n,
            leader_spec(rewards@) == leader_spec(rewards@.skip(j as int)),
        decreases n - j,
    {
        proof {
            assert(rewards@.skip(j as int)[0] == rewards@[j as int]);
            assert(rewards@.skip(j as int).drop_first() =~= rewards@.skip(j as int + 1));
        }
        let reward = &rewards[j];
        let fee = match reward.reward_type {
            Some(RewardKind::Fee) => true,
            _ => false,
        };
        if fee {
            return Some(reward.pubkey.clone());
        }
        j += 1;
    }
    proof {
        assert(rewards@.skip(n as int) =~= Seq::<Reward>::empty());
    }
    None
}

/// Law: a processed block yields one entry per complete transaction —
/// one that has both execution metadata and a decodable payload — in block
/// order, and each entry is that transaction's facts (its signature
/// included); incomplete transactions are excluded, never an error.
pub proof fn lemma_one_info_per_complete_transaction(txs: Seq<FetchedTransaction>)
    ensures
        infos_spec(txs).len() == complete_count(txs),
        forall|k: int|
            0 <= k < txs.len() && is_complete(#[trigger] txs[k]) ==> complete_count(txs.take(k))
                < infos_spec(txs).len(),
        forall|k: int|
            0 <= k < txs.len() && is_complete(#[trigger] txs[k]) ==> infos_spec(
                txs,
            )[complete_count(txs.take(k)) as int] == transaction_info_spec(txs[k])->Some_0,
    decreases txs.len(),
{
    if txs.len() > 0 {
        let rest = txs.drop_last();
        lemma_one_info_per_complete_transaction(rest);
        assert(txs.take(txs.len() - 1) =~= rest);
        assert forall|k: int|
            0 <= k < txs.len() && is_complete(#[trigger] txs[k]) implies complete_count(
            txs.take(k),
        ) < infos_spec(txs).len() && infos_spec(txs)[complete_count(txs.take(k)) as int]
            == transaction_info_spec(txs[k])->Some_0 by {
            if k < txs.len() - 1 {
                assert(txs.take(k) =~= rest.take(k));
                assert(rest[k] == txs[k]);
            } else {
                assert(txs.take(k) =~= rest);
            }
        }
    }
}

/// Law: a legacy "request units" instruction overrides the current
/// compute-budget forms — the requested units are the legacy count, and a
/// positive additional fee fixes the prioritization fee at
/// floor(units * 1000 / additional_fee).
pub proof fn lemma_legacy_budget_wins(instrs: Seq<InstructionFacts>, units: u32, additional_fee: u32)
    requires
        legacy_request_spec(instrs) == Some((units, additional_fee)),
    ensures
        cu_requested_spec(instrs) == Some(units as i64),
        additional_fee > 0 ==> prioritization_fee_spec(instrs) == Some(
            (((units as int) * 1000) / (additional_fee as int)) as i64,
        ),
{
}

proof fn lemma_no_cb_finds_none(instrs: Seq<InstructionFacts>)
    requires
        forall|i: int| 0 <= i < instrs.len() ==> !(#[trigger] instrs[i]).targets_compute_budget,
    ensures
        legacy_request_spec(instrs) is None,
        unit_limit_spec(instrs) is None,
        unit_price_spec(instrs) is None,
    decreases instrs.len(),
{
    if instrs.len() > 0 {
        let rest = instrs.drop_first();
        assert forall|i: int|
            0 <= i < rest.len() implies !(#[trigger] rest[i]).targets_compute_budget by {
            assert(rest[i] == instrs[i + 1]);
        }
        lemma_no_cb_finds_none(rest);
    }
}

/// Law: a transaction with no compute-budget instructions has neither
/// requested units nor a prioritization fee.
pub proof fn lemma_no_budget_instructions(instrs: Seq<InstructionFacts>)
    requires
        forall|i: int| 0 <= i < instrs.len() ==> !(#[trigger] instrs[i]).targets_compute_budget,
    ensures
        cu_requested_spec(instrs) is None,
        prioritization_fee_spec(instrs) is None,
{
    lemma_no_cb_finds_none(instrs);
}

/// Law: when the rewards before position `k` carry no fee-type entry and
/// the one at `k` does, the leader is that entry's recipient. With exactly
/// one fee-type reward for address P, the leader is P.
pub proof fn lemma_leader_is_fee_recipient(rewards: Seq<Reward>, k: int)
    requires
        0 <= k < rewards.len(),
        is_fee_reward(rewards[k]),
        forall|i: int| 0 <= i < k ==> !is_fee_reward(#[trigger] rewards[i]),
    ensures
        leader_spec(rewards) == Some(rewards[k].pubkey),
    decreases k,
{
    if k > 0 {
        let rest = rewards.drop_first();
        assert(rest[k - 1] == rewards[k]);
        assert forall|i: int| 0 <= i < k - 1 implies !is_fee_reward(#[trigger] rest[i]) by {
            assert(rest[i] == rewards[i + 1]);
        }
        lemma_leader_is_fee_recipient(rest, k - 1);
    }
}

/// Law: with no fee-type reward in the list, no leader is identified —
/// an absent leader is not an error.
pub proof fn lemma_no_fee_reward_no_leader(rewards: Seq<Reward>)
    requires
        forall|i: int| 0 <= i < rewards.len() ==> !is_fee_reward(#[trigger] rewards[i]),
    ensures
        leader_spec(rewards) is None,
    decreases rewards.len(),
{
    if rewards.len() > 0 {
        let rest = rewards.drop_first();
        assert forall|i: int| 0 <= i < rest.len() implies !is_fee_reward(#[trigger] rest[i]) by {
            assert(rest[i] == rewards[i + 1]);
        }
        lemma_no_fee_reward_no_leader(rest);
    }
}

} // verus!
