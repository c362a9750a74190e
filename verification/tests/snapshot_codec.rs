use beacon_indexer::codec::{encode_index_page, encode_index_page_compressed, parse_index_page};
use beacon_indexer::db_models::{EpochModel, ParticipationRate};
use beacon_indexer::snapshot::{
    chunk_ids, ids_of_pairs, key_pairs, sort_key_value, sort_pairs, ArtifactId, Indexer, SortKey,
};

fn epoch_model(epoch: i64, attestations: i32, voted: u64, eligible: u64) -> EpochModel {
    EpochModel {
        epoch,
        blocks_count: 32,
        proposer_slashings_count: 0,
        attester_slashings_count: 1,
        attestations_count: attestations,
        deposits_count: 2,
        voluntary_exits_count: 3,
        validators_count: 4,
        average_validator_balance: Some(32_000_000_000),
        total_validator_balance: 128_000_000_000,
        finalized: true,
        eligible_ether: Some(eligible as i64),
        global_participation_rate: if eligible == 0 {
            None
        } else {
            Some(ParticipationRate { voted_gwei: voted, eligible_gwei: eligible })
        },
        voted_ether: Some(voted as i64),
    }
}

#[test]
fn emitting_twice_is_byte_identical() {
    let ids: Vec<i64> = vec![4, 8, 15, 16, 23, 42];
    assert_eq!(encode_index_page(&ids), encode_index_page(&ids));
    assert_eq!(
        encode_index_page_compressed(&ids),
        encode_index_page_compressed(&ids)
    );
}

#[test]
fn plain_artifacts_round_trip() {
    let ids: Vec<i64> = vec![1, 2, 3, 500, -7];
    let bytes = encode_index_page(&ids);
    assert_eq!(parse_index_page(&bytes), Some(ids));
}

#[test]
fn compressed_artifacts_are_tolerated_by_the_reader() {
    let ids: Vec<i64> = (1..=100).collect();
    let bytes = encode_index_page_compressed(&ids);
    assert!(bytes != encode_index_page(&ids));
    assert_eq!(parse_index_page(&bytes), Some(ids));
}

#[test]
fn malformed_artifacts_are_rejected() {
    let garbage = vec![0xffu8, 0x00, 0x13, 0x37];
    assert_eq!(parse_index_page(&garbage), None);
}

#[test]
fn empty_page_round_trips() {
    let ids: Vec<i64> = Vec::new();
    let bytes = encode_index_page(&ids);
    assert_eq!(parse_index_page(&bytes), Some(ids));
}

#[test]
fn sort_pairs_orders_by_key_and_keeps_every_pair() {
    let pairs = vec![(5u64, 1i64), (1u64, 2i64), (3u64, 3i64), (1u64, 4i64), (9u64, 5i64)];
    let sorted = sort_pairs(pairs.clone());
    assert_eq!(sorted.len(), pairs.len());
    for w in sorted.windows(2) {
        assert!(w[0].0 <= w[1].0);
    }
    let mut expected = pairs;
    expected.sort();
    let mut got = sorted;
    got.sort();
    assert_eq!(got, expected);
}

#[test]
fn key_pairs_follow_row_order() {
    let rows = vec![
        epoch_model(1, 7, 10, 20),
        epoch_model(2, 3, 10, 20),
    ];
    let pairs = key_pairs(&rows, SortKey::AttestationsCount);
    assert_eq!(pairs, vec![(7u64, 1i64), (3u64, 2i64)]);
    assert_eq!(ids_of_pairs(&pairs), vec![1, 2]);
}

#[test]
fn participation_rate_keys_rank_in_millionths() {
    let half = epoch_model(1, 0, 50, 100);
    let quarter = epoch_model(2, 0, 25, 100);
    let absent = epoch_model(3, 0, 0, 0);
    assert_eq!(sort_key_value(&half, SortKey::GlobalParticipationRate), 500_000);
    assert_eq!(sort_key_value(&quarter, SortKey::GlobalParticipationRate), 250_000);
    assert_eq!(sort_key_value(&absent, SortKey::GlobalParticipationRate), 0);
    assert_eq!(sort_key_value(&half, SortKey::VotedEther), 50);
    assert_eq!(sort_key_value(&half, SortKey::EligibleEther), 100);
}

#[test]
fn chunks_are_fixed_size_with_a_partial_tail() {
    let ids: Vec<i64> = (1..=25).collect();
    let chunks = chunk_ids(&ids);
    assert_eq!(chunks.len(), 3);
    assert_eq!(chunks[0], (1..=10).collect::<Vec<i64>>());
    assert_eq!(chunks[1], (11..=20).collect::<Vec<i64>>());
    assert_eq!(chunks[2], (21..=25).collect::<Vec<i64>>());
    assert!(chunk_ids(&Vec::new()).is_empty());
}

#[test]
fn artifact_plan_ends_with_the_meta_record() {
    let rows = vec![epoch_model(10, 1, 1, 2), epoch_model(11, 2, 1, 2)];
    let keys = vec![SortKey::AttestationsCount, SortKey::VotedEther];
    let indexer = Indexer {};
    let plan = indexer.artifact_plan(&rows, &keys, 1);
    assert_eq!(plan.len(), 2 + 2 + 1);
    assert_eq!(plan[0], ArtifactId::Epoch(10));
    assert_eq!(plan[1], ArtifactId::Epoch(11));
    assert_eq!(plan[2], ArtifactId::SortPage(SortKey::AttestationsCount, 1));
    assert_eq!(plan[3], ArtifactId::SortPage(SortKey::VotedEther, 1));
    assert_eq!(plan[4], ArtifactId::Meta);
    assert_eq!(*plan.last().unwrap(), ArtifactId::Meta);
}

#[test]
fn sort_index_pages_chunk_the_sorted_ids() {
    let rows: Vec<EpochModel> = (1..=13)
        .map(|e| epoch_model(e, (14 - e) as i32, 1, 2))
        .collect();
    let indexer = Indexer {};
    let pages = indexer.sort_index_pages(&rows, SortKey::AttestationsCount);
    // Ascending by attestations means descending by epoch id here.
    assert_eq!(pages.len(), 2);
    assert_eq!(pages[0], (4..=13).rev().collect::<Vec<i64>>());
    assert_eq!(pages[1], vec![3, 2, 1]);
}

#[test]
fn sort_key_ids_name_the_store_directories() {
    assert_eq!(SortKey::AttestationsCount.id(), "attestations_count");
    assert_eq!(SortKey::DepositsCount.id(), "deposits_count");
    assert_eq!(SortKey::AttesterSlashingsCount.id(), "attester_slashings_count");
    assert_eq!(SortKey::ProposerSlashingsCount.id(), "proposer_slashings_count");
    assert_eq!(SortKey::EligibleEther.id(), "eligible_ether");
    assert_eq!(SortKey::VotedEther.id(), "voted_ether");
    assert_eq!(SortKey::GlobalParticipationRate.id(), "global_participation_rate");
}
