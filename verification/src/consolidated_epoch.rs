//! A consolidated per-epoch record: the fixed run of per-slot records
//! together with the validator set and the participation totals, and its
//! mapping to datastore rows.

use vstd::prelude::*;

use crate::consolidated_block::{ConsolidatedBlock, MAX_BLOCK_COUNT};
use crate::convert::{clamped_i32, clamped_i64, into_clamped_i32, into_clamped_i64};
use crate::db_models::{EpochModel, ParticipationRate, RowWrite};
use crate::errors::IndexerError;
use crate::validator::ValidatorModel;

verus! {

/// Number of slots an epoch groups; the unit of retrieval iteration.
pub const SLOTS_PER_EPOCH: u64 = 32;

/// A validator together with the index that keys it.
#[derive(Clone, Debug)]
pub struct ConsolidatedValidator {
    pub index: u64,
    pub validator: ValidatorModel,
}

/// Participation totals the upstream reports for an epoch.
#[derive(Clone, Copy, Debug, PartialEq, Eq, Structural)]
pub struct ValidatorInclusion {
    pub previous_epoch_active_gwei: u64,
    pub previous_epoch_target_attesting_gwei: u64,
}

/// Which per-block operation count an aggregate ranges over.
#[derive(Clone, Copy, Debug, PartialEq, Eq, Structural)]
pub enum CountKind {
    Attestations,
    Deposits,
    VoluntaryExits,
    ProposerSlashings,
    AttesterSlashings,
}

/// The chosen operation count of one block; zero when the slot has no body.
pub open spec fn block_count(b: ConsolidatedBlock, k: CountKind) -> nat {
    match b.block {
        None => 0,
        Some(d) => match k {
            CountKind::Attestations => d.attestations_count as nat,
            CountKind::Deposits => d.deposits_count as nat,
            CountKind::VoluntaryExits => d.voluntary_exits_count as nat,
            CountKind::ProposerSlashings => d.proposer_slashings_count as nat,
            CountKind::AttesterSlashings => d.attester_slashings_count as nat,
        },
    }
}

/// Sum of the chosen operation count over a run of blocks.
pub open spec fn counts_total(blocks: Seq<ConsolidatedBlock>, k: CountKind) -> nat
    decreases blocks.len(),
{
    if blocks.len() == 0 {
        0
    } else {
        counts_total(blocks.drop_last(), k) + block_count(blocks.last(), k)
    }
}

/// Sum of the effective balances of a run of validators.
pub open spec fn balances_total(validators: Seq<ConsolidatedValidator>) -> nat
    decreases validators.len(),
{
    if validators.len() == 0 {
        0
    } else {
        balances_total(validators.drop_last()) + (validators.last().validator.effective_balance as nat)
    }
}

/// An aggregate operation count never exceeds the per-block cap times the
/// number of blocks.
pub proof fn lemma_counts_total_bound(blocks: Seq<ConsolidatedBlock>, k: CountKind)
    requires
        forall|i: int| 0 <= i < blocks.len() ==> (#[trigger] blocks[i]).wf(),
    ensures
        counts_total(blocks, k) <= blocks.len() * MAX_BLOCK_COUNT,
    decreases blocks.len(),
{
    if blocks.len() > 0 {
        lemma_counts_total_bound(blocks.drop_last(), k);
        assert(blocks.last().wf());
        assert(block_count(blocks.last(), k) <= MAX_BLOCK_COUNT);
        assert((blocks.len() - 1) * MAX_BLOCK_COUNT + MAX_BLOCK_COUNT == blocks.len()
            * MAX_BLOCK_COUNT) by (nonlinear_arith);
    }
}

proof fn lemma_counts_take_extend(blocks: Seq<ConsolidatedBlock>, k: CountKind, i: int)
    requires
        0 <= i < blocks.len(),
    ensures
        counts_total(blocks.take(i + 1), k) == counts_total(blocks.take(i), k) + block_count(
            blocks[i],
            k,
        ),
{
    assert(blocks.take(i + 1).drop_last() =~= blocks.take(i));
    assert(blocks.take(i + 1).last() == blocks[i]);
}

proof fn lemma_counts_take_le(blocks: Seq<ConsolidatedBlock>, k: CountKind, i: int)
    requires
        0 <= i <= blocks.len(),
    ensures
        counts_total(blocks.take(i), k) <= counts_total(blocks, k),
    decreases blocks.len() - i,
{
    if i == blocks.len() {
        assert(blocks.take(i) =~= blocks);
    } else {
        lemma_counts_take_extend(blocks, k, i);
        lemma_counts_take_le(blocks, k, i + 1);
    }
}

proof fn lemma_balances_take_extend(validators: Seq<ConsolidatedValidator>, i: int)
    requires
        0 <= i < validators.len(),
    ensures
        balances_total(validators.take(i + 1)) == balances_total(validators.take(i))
            + validators[i].validator.effective_balance,
{
    assert(validators.take(i + 1).drop_last() =~= validators.take(i));
    assert(validators.take(i + 1).last() == validators[i]);
}

proof fn lemma_balances_take_le(validators: Seq<ConsolidatedValidator>, i: int)
    requires
        0 <= i <= validators.len(),
    ensures
        balances_total(validators.take(i)) <= balances_total(validators),
    decreases validators.len() - i,
{
    if i == validators.len() {
        assert(validators.take(i) =~= validators);
    } else {
        lemma_balances_take_extend(validators, i);
        lemma_balances_take_le(validators, i + 1);
    }
}

/// The record the indexer derives for one epoch.
#[derive(Clone, Debug)]
pub struct ConsolidatedEpoch {
    pub epoch: u64,
    /// One record per slot of the epoch, slot-ascending, no gaps.
    pub blocks: Vec<ConsolidatedBlock>,
    pub validators: Vec<ConsolidatedValidator>,
    pub validator_inclusion: ValidatorInclusion,
}

impl ConsolidatedEpoch {
    /// Validity of a consolidated epoch: exactly one well-formed block per
    /// slot of the epoch, in slot-ascending order; slot numbers fit the
    /// machine word; the balance total fits the column it is written to.
    pub open spec fn wf(self) -> bool {
        &&& self.blocks@.len() == SLOTS_PER_EPOCH
        &&& (self.epoch as int) * (SLOTS_PER_EPOCH as int) + (SLOTS_PER_EPOCH - 1) <= u64::MAX
        &&& forall|i: int|
            0 <= i < self.blocks@.len() ==> {
                &&& (#[trigger] self.blocks@[i]).wf()
                &&& self.blocks@[i].epoch == self.epoch
                &&& self.blocks@[i].slot == self.epoch * SLOTS_PER_EPOCH + i
            }
        &&& balances_total(self.validators@) <= u64::MAX
    }

    /// Sums the chosen operation count over the epoch's blocks.
    pub fn sum_counts(&self, k: CountKind) -> (r: usize)
        requires
            self.wf(),
        ensures
            r == counts_total(self.blocks@, k),
    {
        let mut total: usize = 0;
        let mut i: usize = 0;
        let n = self.blocks.len();
        while i < n
            invariant
                self.wf(),
                n == self.blocks@.len(),
                0 <= i <= n,
                total == counts_total(self.blocks@.take(i as int), k),
            decreases n - i,
        {
            let b = &self.blocks[i];
            let c: usize = match k {
                CountKind::Attestations => b.get_attestations_count(),
                CountKind::Deposits => b.get_deposits_count(),
                CountKind::VoluntaryExits => b.get_voluntary_exits_count(),
                CountKind::ProposerSlashings => b.get_proposer_slashings_count(),
                CountKind::AttesterSlashings => b.get_attester_slashings_count(),
            };
            proof {
                assert(self.blocks@[i as int].wf());
                lemma_counts_take_extend(self.blocks@, k, i as int);
                lemma_counts_take_le(self.blocks@, k, i as int + 1);
                lemma_counts_total_bound(self.blocks@, k);
            }
            total = total + c;
            i = i + 1;
        }
        proof {
            assert(self.blocks@.take(n as int) =~= self.blocks@);
        }
        total
    }

    pub fn get_attestations_count(&self) -> (r: usize)
        requires
            self.wf(),
        ensures
            r == counts_total(self.blocks@, CountKind::Attestations),
    {
        self.sum_counts(CountKind::Attestations)
    }

    pub fn get_deposits_count(&self) -> (r: usize)
        requires
            self.wf(),
        ensures
            r == counts_total(self.blocks@, CountKind::Deposits),
    {
        self.sum_counts(CountKind::Deposits)
    }

    pub fn get_voluntary_exits_count(&self) -> (r: usize)
        requires
            self.wf(),
        ensures
            r == counts_total(self.blocks@, CountKind::VoluntaryExits),
    {
        self.sum_counts(CountKind::VoluntaryExits)
    }

    pub fn get_proposer_slashings_count(&self) -> (r: usize)
        requires
            self.wf(),
        ensures
            r == counts_total(self.blocks@, CountKind::ProposerSlashings),
    {
        self.sum_counts(CountKind::ProposerSlashings)
    }

    pub fn get_attester_slashings_count(&self) -> (r: usize)
        requires
            self.wf(),
        ensures
            r == counts_total(self.blocks@, CountKind::AttesterSlashings),
    {
        self.sum_counts(CountKind::AttesterSlashings)
    }

    /// Sums the effective balances of the epoch's validators.
    pub fn get_total_validator_balance(&self) -> (r: u64)
        requires
            balances_total(self.validators@) <= u64::MAX,
        ensures
            r == balances_total(self.validators@),
    {
        let mut total: u64 = 0;
        let mut i: usize = 0;
        let n = self.validators.len();
        while i < n
            invariant
                balances_total(self.validators@) <= u64::MAX,
                n == self.validators@.len(),
                0 <= i <= n,
                total == balances_total(self.validators@.take(i as int)),
            decreases n - i,
        {
            proof {
                lemma_balances_take_extend(self.validators@, i as int);
                lemma_balances_take_le(self.validators@, i as int + 1);
            }
            total = total + self.validators[i].validator.effective_balance;
            i = i + 1;
        }
        proof {
            assert(self.validators@.take(n as int) =~= self.validators@);
        }
        total
    }

    /// Whether the epoch counts as finalized: the participation ratio
    /// reaches two thirds. False whenever the ratio is undefined.
    pub open spec fn finalized_spec(self) -> bool {
        &&& self.validator_inclusion.previous_epoch_active_gwei > 0
        &&& 3 * self.validator_inclusion.previous_epoch_target_attesting_gwei >= 2
            * self.validator_inclusion.previous_epoch_active_gwei
    }

    /// Field-by-field description of the datastore row this record maps to.
    pub open spec fn models(self, m: EpochModel) -> bool {
        let voted = self.validator_inclusion.previous_epoch_target_attesting_gwei;
        let eligible = self.validator_inclusion.previous_epoch_active_gwei;
        &&& m.epoch == clamped_i64(self.epoch)
        &&& m.blocks_count == self.blocks@.len()
        &&& m.proposer_slashings_count == clamped_i32(
            counts_total(self.blocks@, CountKind::ProposerSlashings) as u64,
        )
        &&& m.attester_slashings_count == clamped_i32(
            counts_total(self.blocks@, CountKind::AttesterSlashings) as u64,
        )
        &&& m.attestations_count == clamped_i32(
            counts_total(self.blocks@, CountKind::Attestations) as u64,
        )
        &&& m.deposits_count == clamped_i32(counts_total(self.blocks@, CountKind::Deposits) as u64)
        &&& m.voluntary_exits_count == clamped_i32(
            counts_total(self.blocks@, CountKind::VoluntaryExits) as u64,
        )
        &&& m.validators_count == clamped_i32(self.validators@.len() as u64)
        &&& m.average_validator_balance == (if self.validators@.len() == 0 {
            Option::<i64>::None
        } else {
            Some(clamped_i64((balances_total(self.validators@) / self.validators@.len()) as u64))
        })
        &&& m.total_validator_balance == clamped_i64(balances_total(self.validators@) as u64)
        &&& m.finalized == self.finalized_spec()
        &&& m.eligible_ether == Some(clamped_i64(eligible))
        &&& m.global_participation_rate == (if eligible == 0 {
            Option::<ParticipationRate>::None
        } else {
            Some(ParticipationRate { voted_gwei: voted, eligible_gwei: eligible })
        })
        &&& m.voted_ether == Some(clamped_i64(voted))
    }

    /// Maps the epoch to its aggregate datastore row. The average balance
    /// and the participation rate are absent, not computed, when their
    /// denominators are zero.
    pub fn as_model(&self) -> (r: Result<EpochModel, IndexerError>)
        requires
            self.wf(),
        ensures
            r matches Ok(m) && self.models(m),
    {
        let voted = self.validator_inclusion.previous_epoch_target_attesting_gwei;
        let eligible = self.validator_inclusion.previous_epoch_active_gwei;
        let total_balance = self.get_total_validator_balance();
        let validators_count = self.validators.len();
        let average = if validators_count == 0 {
            None
        } else {
            Some(into_clamped_i64(total_balance / (validators_count as u64)))
        };
        let finalized = eligible > 0 && 3 * (voted as u128) >= 2 * (eligible as u128);
        let rate = if eligible == 0 {
            None
        } else {
            Some(ParticipationRate { voted_gwei: voted, eligible_gwei: eligible })
        };
        Ok(
            EpochModel {
                epoch: into_clamped_i64(self.epoch),
                blocks_count: self.blocks.len() as i32,
                proposer_slashings_count: into_clamped_i32(
                    self.get_proposer_slashings_count() as u64,
                ),
                attester_slashings_count: into_clamped_i32(
                    self.get_attester_slashings_count() as u64,
                ),
                attestations_count: into_clamped_i32(self.get_attestations_count() as u64),
                deposits_count: into_clamped_i32(self.get_deposits_count() as u64),
                voluntary_exits_count: into_clamped_i32(self.get_voluntary_exits_count() as u64),
                validators_count: into_clamped_i32(validators_count as u64),
                average_validator_balance: average,
                total_validator_balance: into_clamped_i64(total_balance),
                finalized,
                eligible_ether: Some(into_clamped_i64(eligible)),
                global_participation_rate: rate,
                voted_ether: Some(into_clamped_i64(voted)),
            },
        )
    }

    /// Plans the persistence of the epoch: the epoch row first, then one
    /// block row per slot in slot-ascending order.
    pub fn persist_plan(&self) -> (r: Result<Vec<RowWrite>, IndexerError>)
        requires
            self.wf(),
        ensures
            r matches Ok(rows) && {
                &&& rows@.len() == 1 + self.blocks@.len()
                &&& rows@[0] matches RowWrite::Epoch(m) && self.models(m)
                &&& forall|i: int|
                    0 <= i < self.blocks@.len() ==> ((#[trigger] rows@[i + 1]) matches
                        RowWrite::Block(bm) && self.blocks@[i].models(bm))
            },
    {
        let epoch_model = match self.as_model() {
            Ok(m) => m,
            Err(e) => {
                return Err(e);
            },
        };
        let mut rows: Vec<RowWrite> = Vec::new();
        rows.push(RowWrite::Epoch(epoch_model));
        let mut i: usize = 0;
        let n = self.blocks.len();
        while i < n
            invariant
                self.wf(),
                n == self.blocks@.len(),
                0 <= i <= n,
                rows@.len() == 1 + i,
                rows@[0] matches RowWrite::Epoch(m) && self.models(m),
                forall|j: int|
                    0 <= j < i ==> ((#[trigger] rows@[j + 1]) matches RowWrite::Block(bm)
                        && self.blocks@[j].models(bm)),
            decreases n - i,
        {
            let block_model = match self.blocks[i].as_model() {
                Ok(m) => m,
                Err(e) => {
                    return Err(e);
                },
            };
            rows.push(RowWrite::Block(block_model));
            i = i + 1;
        }
        Ok(rows)
    }
}

} // verus!
