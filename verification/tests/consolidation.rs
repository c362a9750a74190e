use beacon_indexer::consolidated_block::{BlockData, BlockStatus, ConsolidatedBlock};
use beacon_indexer::consolidated_epoch::{
    ConsolidatedEpoch, ConsolidatedValidator, ValidatorInclusion, SLOTS_PER_EPOCH,
};
use beacon_indexer::consolidator::{
    consolidate_block, consolidate_blocks_for_epoch, consolidate_epoch, lookup_duty, RawBlock,
    RawDuty,
};
use beacon_indexer::convert::{into_clamped_i32, into_clamped_i64};
use beacon_indexer::db_models::RowWrite;
use beacon_indexer::errors::IndexerError;
use beacon_indexer::node_models::Identifier;
use beacon_indexer::validator::ValidatorModel;

fn body(attestations: usize) -> BlockData {
    BlockData {
        parent_root: vec![1u8; 32],
        state_root: vec![2u8; 32],
        randao_reveal: vec![3u8; 96],
        graffiti: vec![0u8; 32],
        graffiti_text: String::new(),
        eth1data_deposit_root: vec![4u8; 32],
        eth1data_deposit_count: 7,
        eth1data_block_hash: vec![5u8; 32],
        attestations_count: attestations,
        deposits_count: 1,
        proposer_slashings_count: 0,
        attester_slashings_count: 2,
        voluntary_exits_count: 3,
        sync_bits_set: Some(400),
        sync_committee_size: 512,
    }
}

fn raw_block(proposer: u64) -> RawBlock {
    RawBlock {
        proposer_index: proposer,
        signature: vec![9u8; 96],
        body: body(64),
    }
}

fn validator(balance: u64) -> ValidatorModel {
    ValidatorModel {
        pubkey: vec![0u8; 48],
        pubkey_hex: String::from("0x00"),
        withdrawable_epoch: Some(10),
        withdrawal_credentials: vec![0u8; 32],
        balance,
        balance_activation: balance,
        effective_balance: balance,
        slashed: false,
        activation_eligibility_epoch: Some(0),
        activation_epoch: 0,
        exit_epoch: Some(100),
        status: String::from("active_ongoing"),
    }
}

fn epoch_of_missed_blocks(validators: Vec<ConsolidatedValidator>, inclusion: ValidatorInclusion) -> ConsolidatedEpoch {
    let duties: Vec<RawDuty> = (0..32)
        .map(|i| RawDuty { slot: 64 + i, validator_index: i })
        .collect();
    let blocks = consolidate_blocks_for_epoch(2, vec![None; 32], vec![None; 32], &duties).unwrap();
    consolidate_epoch(2, blocks, validators, inclusion)
}

#[test]
fn proposed_exactly_when_a_body_was_retrieved() {
    let duties = vec![RawDuty { slot: 5, validator_index: 42 }];
    let with_body = consolidate_block(0, 5, Some(raw_block(7)), None, &duties).unwrap();
    assert!(matches!(with_body.status, BlockStatus::Proposed));
    assert!(with_body.block.is_some());
    assert_eq!(with_body.proposer, 7);

    let without_body = consolidate_block(0, 5, None, None, &duties).unwrap();
    assert!(matches!(without_body.status, BlockStatus::Missed));
    assert!(without_body.block.is_none());
    assert_eq!(without_body.proposer, 42);
}

#[test]
fn observed_root_without_a_body_is_orphaned() {
    let duties = vec![RawDuty { slot: 5, validator_index: 42 }];
    let cb = consolidate_block(0, 5, None, Some(vec![8u8; 32]), &duties).unwrap();
    assert!(matches!(cb.status, BlockStatus::Orphaned));
    assert_eq!(cb.block_root, Some(vec![8u8; 32]));
}

#[test]
fn missing_duty_entry_fails_with_entity_not_found() {
    let duties = vec![RawDuty { slot: 4, validator_index: 1 }];
    let err = consolidate_block(3, 100, None, None, &duties).unwrap_err();
    assert_eq!(err, IndexerError::EntityNotFound { epoch: 3, slot: 100 });
}

#[test]
fn duty_lookup_takes_the_first_matching_entry() {
    let duties = vec![
        RawDuty { slot: 9, validator_index: 1 },
        RawDuty { slot: 7, validator_index: 2 },
        RawDuty { slot: 7, validator_index: 3 },
    ];
    assert_eq!(lookup_duty(&duties, 7).unwrap().validator_index, 2);
    assert!(lookup_duty(&duties, 8).is_none());
}

#[test]
fn one_block_per_slot_no_gaps() {
    let epoch: u64 = 3;
    let blocks_in: Vec<Option<RawBlock>> =
        (0..32).map(|i| if i % 2 == 0 { Some(raw_block(i as u64)) } else { None }).collect();
    let roots: Vec<Option<Vec<u8>>> = vec![None; 32];
    let duties: Vec<RawDuty> = (0..32)
        .map(|i| RawDuty { slot: epoch * SLOTS_PER_EPOCH + i, validator_index: 1000 + i })
        .collect();
    let blocks = consolidate_blocks_for_epoch(epoch, blocks_in, roots, &duties).unwrap();
    assert_eq!(blocks.len() as u64, SLOTS_PER_EPOCH);
    for (i, b) in blocks.iter().enumerate() {
        assert_eq!(b.slot, epoch * SLOTS_PER_EPOCH + i as u64);
        assert_eq!(b.epoch, epoch);
    }
    let consolidated = consolidate_epoch(epoch, blocks, Vec::new(), ValidatorInclusion {
        previous_epoch_active_gwei: 0,
        previous_epoch_target_attesting_gwei: 0,
    });
    let model = consolidated.as_model().unwrap();
    assert_eq!(model.blocks_count, 32);
}

#[test]
fn epoch_aggregates_sum_per_block_counts() {
    let epoch: u64 = 1;
    let blocks_in: Vec<Option<RawBlock>> = (0..32).map(|_| Some(raw_block(1))).collect();
    let roots: Vec<Option<Vec<u8>>> = (0..32).map(|_| Some(vec![1u8; 32])).collect();
    let duties: Vec<RawDuty> = Vec::new();
    let blocks = consolidate_blocks_for_epoch(epoch, blocks_in, roots, &duties).unwrap();
    let consolidated = consolidate_epoch(epoch, blocks, Vec::new(), ValidatorInclusion {
        previous_epoch_active_gwei: 10,
        previous_epoch_target_attesting_gwei: 10,
    });
    assert_eq!(consolidated.get_attestations_count(), 32 * 64);
    assert_eq!(consolidated.get_deposits_count(), 32);
    assert_eq!(consolidated.get_proposer_slashings_count(), 0);
    assert_eq!(consolidated.get_attester_slashings_count(), 64);
    assert_eq!(consolidated.get_voluntary_exits_count(), 96);
}

#[test]
fn zero_validators_yield_an_absent_average() {
    let e = epoch_of_missed_blocks(Vec::new(), ValidatorInclusion {
        previous_epoch_active_gwei: 100,
        previous_epoch_target_attesting_gwei: 80,
    });
    let model = e.as_model().unwrap();
    assert_eq!(model.validators_count, 0);
    assert!(model.average_validator_balance.is_none());
    assert_eq!(model.total_validator_balance, 0);
}

#[test]
fn zero_eligible_gwei_yields_absent_rate_and_not_finalized() {
    let vals = vec![
        ConsolidatedValidator { index: 0, validator: validator(32_000_000_000) },
        ConsolidatedValidator { index: 1, validator: validator(31_000_000_000) },
    ];
    let e = epoch_of_missed_blocks(vals, ValidatorInclusion {
        previous_epoch_active_gwei: 0,
        previous_epoch_target_attesting_gwei: 0,
    });
    let model = e.as_model().unwrap();
    assert!(model.global_participation_rate.is_none());
    assert!(!model.finalized);
    assert_eq!(model.average_validator_balance, Some(31_500_000_000));
    assert_eq!(model.total_validator_balance, 63_000_000_000);
}

#[test]
fn two_thirds_participation_finalizes() {
    let e = epoch_of_missed_blocks(Vec::new(), ValidatorInclusion {
        previous_epoch_active_gwei: 3,
        previous_epoch_target_attesting_gwei: 2,
    });
    let model = e.as_model().unwrap();
    assert!(model.finalized);
    let rate = model.global_participation_rate.unwrap();
    assert_eq!(rate.voted_gwei, 2);
    assert_eq!(rate.eligible_gwei, 3);

    let below = epoch_of_missed_blocks(Vec::new(), ValidatorInclusion {
        previous_epoch_active_gwei: 4,
        previous_epoch_target_attesting_gwei: 2,
    });
    assert!(!below.as_model().unwrap().finalized);
}

#[test]
fn persist_plan_writes_epoch_row_first_then_blocks_ascending() {
    let e = epoch_of_missed_blocks(Vec::new(), ValidatorInclusion {
        previous_epoch_active_gwei: 1,
        previous_epoch_target_attesting_gwei: 1,
    });
    let rows = e.persist_plan().unwrap();
    assert_eq!(rows.len(), 33);
    assert!(matches!(rows[0], RowWrite::Epoch(_)));
    let mut prev_slot = -1i64;
    for row in &rows[1..] {
        match row {
            RowWrite::Block(b) => {
                assert!(b.slot > prev_slot);
                prev_slot = b.slot;
            }
            RowWrite::Epoch(_) => panic!("epoch row must come first and only once"),
        }
    }
}

#[test]
fn block_model_carries_clamped_columns_and_status_text() {
    let duties = Vec::new();
    let cb = consolidate_block(1, 37, Some(raw_block(9)), Some(vec![6u8; 32]), &duties).unwrap();
    let m = cb.as_model().unwrap();
    assert_eq!(m.epoch, 1);
    assert_eq!(m.slot, 37);
    assert_eq!(m.status, "Proposed");
    assert_eq!(m.block_root, vec![6u8; 32]);
    assert_eq!(m.attestations_count, 64);
    assert_eq!(m.proposer, 9);
}

#[test]
fn absent_block_maps_to_an_empty_detail_row() {
    let duties = vec![RawDuty { slot: 37, validator_index: 5 }];
    let cb = consolidate_block(1, 37, None, None, &duties).unwrap();
    let m = cb.as_model().unwrap();
    assert_eq!(m.status, "Missed");
    assert!(m.block_root.is_empty());
    assert!(m.randao_reveal.is_none());
    assert!(m.graffiti_text.is_none());
    assert_eq!(m.attestations_count, 0);
}

#[test]
fn status_text_round_trips() {
    for st in [
        BlockStatus::Scheduled,
        BlockStatus::Proposed,
        BlockStatus::Missed,
        BlockStatus::Orphaned,
    ] {
        let text = st.as_text();
        assert_eq!(BlockStatus::from_text(&text), Some(st));
    }
    assert_eq!(BlockStatus::from_text("proposed"), None);
}

#[test]
fn block_getters_read_the_body_counts() {
    let cb = ConsolidatedBlock::new(
        0,
        0,
        Some(body(5)),
        None,
        vec![],
        BlockStatus::Proposed,
        1,
    );
    assert_eq!(cb.get_attestations_count(), 5);
    assert_eq!(cb.get_deposits_count(), 1);
    assert_eq!(cb.get_voluntary_exits_count(), 3);
    assert_eq!(cb.get_proposer_slashings_count(), 0);
    assert_eq!(cb.get_attester_slashings_count(), 2);

    let empty = ConsolidatedBlock::new(0, 0, None, None, vec![], BlockStatus::Missed, 1);
    assert_eq!(empty.get_attestations_count(), 0);
    assert_eq!(empty.get_attester_slashings_count(), 0);
}

#[test]
fn clamped_conversions_saturate_at_the_top() {
    assert_eq!(into_clamped_i64(5), 5);
    assert_eq!(into_clamped_i64(u64::MAX), i64::MAX);
    assert_eq!(into_clamped_i32(7), 7);
    assert_eq!(into_clamped_i32(u64::MAX), i32::MAX);
    assert_eq!(into_clamped_i32(i32::MAX as u64 + 1), i32::MAX);
}

#[test]
fn identifiers_render_as_request_paths() {
    assert_eq!(Identifier::Head.to_text(), "head");
    assert_eq!(Identifier::Genesis.to_text(), "genesis");
    assert_eq!(Identifier::Finalized.to_text(), "finalized");
    assert_eq!(Identifier::Justified.to_text(), "justified");
    assert_eq!(Identifier::Slot(45000).to_text(), "45000");
    assert_eq!(Identifier::Slot(0).to_text(), "0");
    assert_eq!(Identifier::Root(String::from("0xabc")).to_text(), "0xabc");
}
