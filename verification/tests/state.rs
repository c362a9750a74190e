use beacon_indexer::attestation::{AttestationModel, AttestationView};
use beacon_indexer::consolidator::RawDuty;
use beacon_indexer::duty_cache::{DutyCache, LookupAction};
use beacon_indexer::errors::IndexerError;
use beacon_indexer::retriever::{Retriever, RetrieverAction, RetrieverEvent, RetrieverPhase};
use beacon_indexer::validator::{ModelWithId, ValidatorModel, ValidatorView, ValidatorsMeta};
use beacon_indexer::validators_context::ValidatorsContext;

fn duties() -> Vec<RawDuty> {
    vec![
        RawDuty { slot: 320, validator_index: 11 },
        RawDuty { slot: 321, validator_index: 12 },
    ]
}

fn validator_model(balance: u64) -> ValidatorModel {
    ValidatorModel {
        pubkey: vec![1u8; 48],
        pubkey_hex: String::from("0x01"),
        withdrawable_epoch: Some(7),
        withdrawal_credentials: vec![2u8; 32],
        balance,
        balance_activation: balance,
        effective_balance: balance,
        slashed: false,
        activation_eligibility_epoch: Some(1),
        activation_epoch: 2,
        exit_epoch: Some(3),
        status: String::from("active_ongoing"),
    }
}

#[test]
fn duty_fetch_starts_exactly_once_per_epoch() {
    let mut cache = DutyCache::new();
    // The first lookup of an unseen epoch starts the one fetch.
    assert!(matches!(cache.begin_lookup(10), LookupAction::StartFetch));
    // Concurrent lookups of the same epoch wait instead of fetching again.
    assert!(matches!(cache.begin_lookup(10), LookupAction::Wait));
    assert!(matches!(cache.begin_lookup(10), LookupAction::Wait));
    // A different epoch gets its own single fetch.
    assert!(matches!(cache.begin_lookup(11), LookupAction::StartFetch));
    // Once the fetch completes, every lookup is answered from the cache.
    cache.complete_fetch(10, duties());
    match cache.begin_lookup(10) {
        LookupAction::UseCached(d) => assert_eq!(d, duties()),
        _ => panic!("expected the cached duty table"),
    }
    match cache.begin_lookup(10) {
        LookupAction::UseCached(d) => assert_eq!(d, duties()),
        _ => panic!("expected the cached duty table"),
    }
    // The other epoch is still only in flight.
    assert!(matches!(cache.begin_lookup(11), LookupAction::Wait));
}

#[test]
fn retriever_walks_epochs_sequentially() {
    let mut r = Retriever::new(0);
    for n in 0..3u64 {
        assert_eq!(r.next_action(), RetrieverAction::FetchEpoch(n));
        r.step(RetrieverEvent::EpochOk);
    }
    assert_eq!(r.next_action(), RetrieverAction::FetchEpoch(3));
}

#[test]
fn failure_at_an_epoch_stops_before_the_next() {
    let mut r = Retriever::new(0);
    r.step(RetrieverEvent::EpochOk);
    r.step(RetrieverEvent::EpochOk);
    assert_eq!(r.next_action(), RetrieverAction::FetchEpoch(2));
    r.step(RetrieverEvent::EpochFailed(IndexerError::UpstreamUnavailable {
        epoch: 2,
        slot: None,
    }));
    // Epoch 3 is never attempted: the loop moves to the validator refresh.
    assert_eq!(r.next_action(), RetrieverAction::RefreshValidators);
    assert_eq!(r.phase, RetrieverPhase::Validators);
    assert_eq!(
        r.failure,
        Some(IndexerError::UpstreamUnavailable { epoch: 2, slot: None })
    );
    // The refresh failing is not fatal: the run simply ends.
    r.step(RetrieverEvent::ValidatorsFailed);
    assert_eq!(r.next_action(), RetrieverAction::Stop);
    // Epochs 0 and 1 stay persisted; nothing after the failure was attempted.
    assert_eq!(r.next_epoch, 2);
}

#[test]
fn cancellation_stops_cleanly_between_epochs() {
    let mut r = Retriever::new(5);
    r.step(RetrieverEvent::EpochOk);
    r.step(RetrieverEvent::Cancelled);
    assert_eq!(r.next_action(), RetrieverAction::RefreshValidators);
    assert!(r.failure.is_none());
    r.step(RetrieverEvent::ValidatorsOk);
    assert_eq!(r.next_action(), RetrieverAction::Stop);
    assert_eq!(r.next_epoch, 6);
}

#[test]
fn validators_context_converts_each_record_that_fits() {
    let fits = validator_model(32_000_000_000);
    let mut too_big = validator_model(1);
    too_big.balance = u64::MAX;
    let mut unknown_exit = validator_model(2);
    unknown_exit.exit_epoch = None;
    let ctx = ValidatorsContext::new(vec![fits, too_big, unknown_exit]);
    assert_eq!(ctx.breadcrumb, vec![String::from("Validators")]);
    assert_eq!(ctx.validators.len(), 3);
    let first = ctx.validators[0].as_ref().unwrap();
    assert_eq!(first.validator_index, 0);
    assert_eq!(first.balance, 32_000_000_000);
    assert_eq!(first.exit_epoch, 3);
    assert!(ctx.validators[1].is_none());
    assert!(ctx.validators[2].is_none());
}

#[test]
fn validators_meta_counts_the_run() {
    let meta = ValidatorsMeta::new(17);
    assert_eq!(meta.count, 17);
}

#[test]
fn validator_view_flattens_the_id() {
    let with_id = ModelWithId { id: 9, model: validator_model(5) };
    let view = ValidatorView::from(with_id);
    assert_eq!(view.validator_index, 9);
    assert_eq!(view.model.balance, 5);
}

#[test]
fn attestation_view_copies_the_model() {
    let model = AttestationModel {
        aggregation_bits: vec![true, false, true],
        committee_index: 4,
        beacon_block_root: String::from("0xroot"),
        source: 1,
        target: 2,
        signature: String::from("0xsig"),
    };
    let view = AttestationView::from(model);
    assert_eq!(view.aggregation_bits, vec![true, false, true]);
    assert_eq!(view.committee_index, 4);
    assert_eq!(view.beacon_block_root, "0xroot");
    assert_eq!(view.source, 1);
    assert_eq!(view.target, 2);
    assert_eq!(view.signature, "0xsig");
}
