use lite_rpc::block_processor::{
    transaction_info, BlockProcessor, BlockProcessorResult, DecodedTransaction, FetchedBlock,
    FetchedTransaction, InstructionFacts, Reward, RewardKind, TransactionMeta,
};
use lite_rpc::block_store::{BlockInformation, BlockStore, DurabilityTier};

fn budget_instr(data: Vec<u8>) -> InstructionFacts {
    InstructionFacts { targets_compute_budget: true, data }
}

fn other_instr(data: Vec<u8>) -> InstructionFacts {
    InstructionFacts { targets_compute_budget: false, data }
}

fn complete_tx(signature: &str, instructions: Vec<InstructionFacts>) -> FetchedTransaction {
    FetchedTransaction {
        meta: Some(TransactionMeta { err: None, compute_units_consumed: None }),
        decoded: Some(
            DecodedTransaction { signature: String::from(signature), instructions },
        ),
    }
}

fn valid_block(transactions: Vec<FetchedTransaction>, rewards: Option<Vec<Reward>>) -> FetchedBlock {
    FetchedBlock {
        block_height: Some(900),
        transactions: Some(transactions),
        blockhash: String::from("block-hash"),
        parent_slot: 41,
        rewards,
    }
}

fn assert_sentinel(r: &BlockProcessorResult) {
    assert!(r.invalid_block);
    assert!(r.transaction_infos.is_empty());
    assert!(r.leader_id.is_none());
    assert_eq!(r.blockhash, String::new());
    assert_eq!(r.parent_slot, 0);
}

#[test]
fn one_info_per_complete_transaction() {
    let txs = vec![
        FetchedTransaction {
            meta: None,
            decoded: Some(DecodedTransaction {
                signature: String::from("no-meta"),
                instructions: Vec::new(),
            }),
        },
        FetchedTransaction {
            meta: Some(TransactionMeta { err: None, compute_units_consumed: None }),
            decoded: None,
        },
        complete_tx("good-signature", Vec::new()),
    ];
    let mut processor = BlockProcessor::new(None);
    let r = processor.process(42, DurabilityTier::Confirmed, valid_block(txs, None), 0);
    assert!(!r.invalid_block);
    assert_eq!(r.transaction_infos.len(), 1);
    assert_eq!(r.transaction_infos[0].signature, String::from("good-signature"));
    assert_eq!(r.blockhash, String::from("block-hash"));
    assert_eq!(r.parent_slot, 41);
}

#[test]
fn legacy_budget_overrides_current_forms() {
    // Current-format limit (9999) and price (42) are both present, but the
    // legacy request (units = 5000, additional_fee = 10) wins:
    // fee = floor(5000 * 1000 / 10) = 500_000.
    let instructions = vec![
        budget_instr(vec![2, 0x0F, 0x27, 0, 0]),
        budget_instr(vec![3, 42, 0, 0, 0, 0, 0, 0, 0]),
        budget_instr(vec![0, 0x88, 0x13, 0, 0, 10, 0, 0, 0]),
    ];
    let info = transaction_info(&complete_tx("sig", instructions)).unwrap();
    assert_eq!(info.cu_requested, Some(5000));
    assert_eq!(info.prioritization_fees, Some(500_000));
}

#[test]
fn legacy_with_zero_fee_keeps_current_price() {
    let instructions = vec![
        budget_instr(vec![3, 42, 0, 0, 0, 0, 0, 0, 0]),
        budget_instr(vec![0, 0x88, 0x13, 0, 0, 0, 0, 0, 0]),
    ];
    let info = transaction_info(&complete_tx("sig", instructions)).unwrap();
    assert_eq!(info.cu_requested, Some(5000));
    assert_eq!(info.prioritization_fees, Some(42));
}

#[test]
fn no_compute_budget_instructions_yield_nothing() {
    // The same bytes aimed at another program derive nothing.
    let instructions = vec![other_instr(vec![2, 0x0F, 0x27, 0, 0])];
    let info = transaction_info(&complete_tx("sig", instructions)).unwrap();
    assert_eq!(info.cu_requested, None);
    assert_eq!(info.prioritization_fees, None);
}

#[test]
fn current_forms_without_legacy() {
    let instructions = vec![
        budget_instr(vec![2, 0x0F, 0x27, 0, 0]),
        budget_instr(vec![3, 42, 0, 0, 0, 0, 0, 0, 0]),
    ];
    let info = transaction_info(&complete_tx("sig", instructions)).unwrap();
    assert_eq!(info.cu_requested, Some(9999));
    assert_eq!(info.prioritization_fees, Some(42));
}

#[test]
fn consumed_units_and_error_carried_over() {
    let tx = FetchedTransaction {
        meta: Some(TransactionMeta {
            err: Some(String::from("oops")),
            compute_units_consumed: Some(777),
        }),
        decoded: Some(DecodedTransaction {
            signature: String::from("sig"),
            instructions: Vec::new(),
        }),
    };
    let info = transaction_info(&tx).unwrap();
    assert_eq!(info.cu_consumed, Some(777));
    assert_eq!(info.err, Some(String::from("oops")));
    assert_eq!(info.status, Err(String::from("oops")));

    let ok = transaction_info(&complete_tx("sig", Vec::new())).unwrap();
    assert_eq!(ok.cu_consumed, None);
    assert_eq!(ok.err, None);
    assert_eq!(ok.status, Ok(()));
}

#[test]
fn missing_block_height_gives_sentinel() {
    let block = FetchedBlock {
        block_height: None,
        transactions: Some(Vec::new()),
        blockhash: String::from("h"),
        parent_slot: 3,
        rewards: None,
    };
    let mut processor = BlockProcessor::new(None);
    let r = processor.process(42, DurabilityTier::Processed, block, 0);
    assert_sentinel(&r);
}

#[test]
fn missing_transaction_list_gives_sentinel() {
    let block = FetchedBlock {
        block_height: Some(900),
        transactions: None,
        blockhash: String::from("h"),
        parent_slot: 3,
        rewards: None,
    };
    let mut processor = BlockProcessor::new(None);
    let r = processor.process(42, DurabilityTier::Processed, block, 0);
    assert_sentinel(&r);
}

#[test]
fn leader_from_single_fee_reward() {
    let rewards = vec![
        Reward { pubkey: String::from("staker"), reward_type: Some(RewardKind::Staking) },
        Reward { pubkey: String::from("leader-p"), reward_type: Some(RewardKind::Fee) },
        Reward { pubkey: String::from("voter"), reward_type: Some(RewardKind::Voting) },
    ];
    let mut processor = BlockProcessor::new(None);
    let r = processor.process(42, DurabilityTier::Confirmed, valid_block(Vec::new(), Some(rewards)), 0);
    assert_eq!(r.leader_id, Some(String::from("leader-p")));
}

#[test]
fn no_fee_reward_means_no_leader() {
    let rewards = vec![
        Reward { pubkey: String::from("staker"), reward_type: Some(RewardKind::Staking) },
        Reward { pubkey: String::from("untyped"), reward_type: None },
    ];
    let mut processor = BlockProcessor::new(None);
    let r = processor.process(42, DurabilityTier::Confirmed, valid_block(Vec::new(), Some(rewards)), 0);
    assert_eq!(r.leader_id, None);
    let mut processor = BlockProcessor::new(None);
    let r = processor.process(42, DurabilityTier::Confirmed, valid_block(Vec::new(), None), 0);
    assert_eq!(r.leader_id, None);
}

#[test]
fn process_records_block_in_store() {
    let mut processor = BlockProcessor::new(Some(BlockStore::new()));
    let r = processor.process(42, DurabilityTier::Confirmed, valid_block(Vec::new(), None), 17);
    assert!(!r.invalid_block);
    let store = processor.into_block_store().unwrap();
    assert_eq!(store.latest(DurabilityTier::Confirmed), Some((String::from("block-hash"), 900)));
    assert!(store.contains_block(&String::from("block-hash"), DurabilityTier::Confirmed));
    let info = store.get_latest(DurabilityTier::Confirmed).unwrap();
    assert_eq!(info.slot, 42);
    assert_eq!(info.instant, 17);
}

#[test]
fn bootstrap_seeds_lowest_tier() {
    let mut processor = BlockProcessor::new(Some(BlockStore::new()));
    processor.poll_latest_block(
        String::from("boot-hash"),
        BlockInformation { slot: 5, block_height: 50, instant: 1, processed_local_time: None },
    );
    let store = processor.into_block_store().unwrap();
    assert_eq!(store.latest(DurabilityTier::Processed), Some((String::from("boot-hash"), 50)));
    assert!(store.latest(DurabilityTier::Confirmed).is_none());
    assert!(store.latest(DurabilityTier::Finalized).is_none());
}

#[test]
fn invalid_constructor_is_the_sentinel() {
    let r = BlockProcessorResult::invalid();
    assert_sentinel(&r);
}
