//! Turns raw upstream responses into consolidated per-slot and per-epoch
//! records. Pure functions of their inputs: the fetches themselves happen
//! outside the library and hand their results in as plain values.

use vstd::prelude::*;

use crate::consolidated_block::{BlockData, BlockStatus, ConsolidatedBlock};
use crate::consolidated_epoch::{
    balances_total, ConsolidatedEpoch, ConsolidatedValidator, ValidatorInclusion, SLOTS_PER_EPOCH,
};
use crate::errors::IndexerError;

verus! {

/// An upstream-supplied assignment of the validator expected to propose at
/// a slot.
#[derive(Clone, Copy, Debug, PartialEq, Eq, Structural)]
pub struct RawDuty {
    pub slot: u64,
    pub validator_index: u64,
}

/// A block as the upstream fetch returns it, reduced to the plain values
/// the consolidation reads.
#[derive(Clone, Debug)]
pub struct RawBlock {
    pub proposer_index: u64,
    pub signature: Vec<u8>,
    pub body: BlockData,
}

/// The first duty entry for the given slot, if any.
pub open spec fn find_duty(duties: Seq<RawDuty>, slot: u64) -> Option<RawDuty>
    decreases duties.len(),
{
    if duties.len() == 0 {
        None
    } else if duties[0].slot == slot {
        Some(duties[0])
    } else {
        find_duty(duties.drop_first(), slot)
    }
}

proof fn lemma_find_duty_skip(duties: Seq<RawDuty>, slot: u64, i: int)
    requires
        0 <= i <= duties.len(),
        forall|j: int| 0 <= j < i ==> (#[trigger] duties[j]).slot != slot,
    ensures
        find_duty(duties, slot) == find_duty(duties.skip(i), slot),
    decreases i,
{
    if i > 0 {
        lemma_find_duty_skip(duties, slot, i - 1);
        assert(duties.skip(i - 1)[0] == duties[i - 1]);
        assert(duties.skip(i - 1).drop_first() =~= duties.skip(i));
    } else {
        assert(duties.skip(0) =~= duties);
    }
}

/// Scans the duty table for the first entry of the given slot.
pub fn lookup_duty(duties: &Vec<RawDuty>, slot: u64) -> (r: Option<RawDuty>)
    ensures
        r == find_duty(duties@, slot),
{
    let mut i: usize = 0;
    let n = duties.len();
    while i < n
        invariant
            n == duties@.len(),
            0 <= i <= n,
            forall|j: int| 0 <= j < i ==> (#[trigger] duties@[j]).slot != slot,
        decreases n - i,
    {
        if duties[i].slot == slot {
            proof {
                lemma_find_duty_skip(duties@, slot, i as int);
                assert(duties@.skip(i as int)[0] == duties@[i as int]);
            }
            return Some(duties[i]);
        }
        i = i + 1;
    }
    proof {
        lemma_find_duty_skip(duties@, slot, n as int);
        assert(duties@.skip(n as int) =~= Seq::<RawDuty>::empty());
    }
    None
}

/// What a consolidated record must look like for the given slot inputs.
///
/// With a retrieved body the slot is `Proposed` and the record carries the
/// body, its signature and its proposer. Without one, the proposer comes
/// from the duty table, and the slot is `Orphaned` when a root was
/// nonetheless observed, else `Missed`.
pub open spec fn consolidation_spec(
    epoch: u64,
    slot: u64,
    block: Option<RawBlock>,
    observed_root: Option<Vec<u8>>,
    duties: Seq<RawDuty>,
    r: Result<ConsolidatedBlock, IndexerError>,
) -> bool {
    match block {
        Some(b) => r matches Ok(cb) && {
            &&& cb.epoch == epoch
            &&& cb.slot == slot
            &&& cb.block == Some(b.body)
            &&& cb.block_root == observed_root
            &&& cb.signature == b.signature
            &&& cb.status == BlockStatus::Proposed
            &&& cb.proposer == b.proposer_index
        },
        None => match find_duty(duties, slot) {
            Some(d) => r matches Ok(cb) && {
                &&& cb.epoch == epoch
                &&& cb.slot == slot
                &&& cb.block is None
                &&& cb.block_root == observed_root
                &&& cb.signature@ == Seq::<u8>::empty()
                &&& cb.status == (if observed_root is Some {
                    BlockStatus::Orphaned
                } else {
                    BlockStatus::Missed
                })
                &&& cb.proposer == d.validator_index
            },
            None => r matches Err(e) && e == (IndexerError::EntityNotFound { epoch, slot }),
        },
    }
}

/// Consolidates one slot from the upstream fetch result, the observed
/// root, and the epoch's duty table.
///
/// Succeeds exactly when a body was retrieved or the duty table names a
/// proposer for the slot; the record is `Proposed` exactly when a body was
/// retrieved.
pub fn consolidate_block(
    epoch: u64,
    slot: u64,
    block: Option<RawBlock>,
    observed_root: Option<Vec<u8>>,
    duties: &Vec<RawDuty>,
) -> (r: Result<ConsolidatedBlock, IndexerError>)
    requires
        block matches Some(b) ==> b.body.wf(),
    ensures
        consolidation_spec(epoch, slot, block, observed_root, duties@, r),
        r matches Ok(cb) ==> cb.wf(),
{
    match block {
        Some(b) => Ok(
            ConsolidatedBlock {
                epoch,
                slot,
                block: Some(b.body),
                block_root: observed_root,
                signature: b.signature,
                status: BlockStatus::Proposed,
                proposer: b.proposer_index,
            },
        ),
        None => match lookup_duty(duties, slot) {
            Some(d) => {
                let status = if observed_root.is_some() {
                    BlockStatus::Orphaned
                } else {
                    BlockStatus::Missed
                };
                Ok(
                    ConsolidatedBlock {
                        epoch,
                        slot,
                        block: None,
                        block_root: observed_root,
                        signature: Vec::new(),
                        status,
                        proposer: d.validator_index,
                    },
                )
            },
            None => Err(IndexerError::EntityNotFound { epoch, slot }),
        },
    }
}

/// Some slot of the epoch has no consolidated record and fails with
/// the given error.
pub open spec fn epoch_error_spec(
    epoch: u64,
    blocks: Seq<Option<RawBlock>>,
    observed_roots: Seq<Option<Vec<u8>>>,
    duties: Seq<RawDuty>,
    e: IndexerError,
) -> bool {
    exists|i: int|
        0 <= i < blocks.len() && consolidation_spec(
            epoch,
            (epoch * SLOTS_PER_EPOCH + i) as u64,
            #[trigger] blocks[i],
            observed_roots[i],
            duties,
            Err(e),
        )
}

/// Consolidates every slot of an epoch, in slot-ascending order, from the
/// per-slot fetch results and observed roots. One record per slot, no
/// gaps; the first slot without a body and without a duty entry fails the
/// whole epoch.
pub fn consolidate_blocks_for_epoch(
    epoch: u64,
    blocks: Vec<Option<RawBlock>>,
    observed_roots: Vec<Option<Vec<u8>>>,
    duties: &Vec<RawDuty>,
) -> (r: Result<Vec<ConsolidatedBlock>, IndexerError>)
    requires
        blocks@.len() == SLOTS_PER_EPOCH,
        observed_roots@.len() == SLOTS_PER_EPOCH,
        (epoch as int) * (SLOTS_PER_EPOCH as int) + (SLOTS_PER_EPOCH - 1) <= u64::MAX,
        forall|i: int|
            0 <= i < blocks@.len() ==> ((#[trigger] blocks@[i]) matches Some(b) ==> b.body.wf()),
    ensures
        r matches Ok(out) ==> {
            &&& out@.len() == SLOTS_PER_EPOCH
            &&& forall|i: int|
                0 <= i < out@.len() ==> {
                    &&& (#[trigger] out@[i]).wf()
                    &&& out@[i].epoch == epoch
                    &&& out@[i].slot == epoch * SLOTS_PER_EPOCH + i
                    &&& consolidation_spec(
                        epoch,
                        (epoch * SLOTS_PER_EPOCH + i) as u64,
                        blocks@[i],
                        observed_roots@[i],
                        duties@,
                        Ok(out@[i]),
                    )
                }
        },
        r matches Err(e) ==> epoch_error_spec(epoch, blocks@, observed_roots@, duties@, e),
{
    let mut out: Vec<ConsolidatedBlock> = Vec::new();
    let base: u64 = epoch * SLOTS_PER_EPOCH;
    let mut i: usize = 0;
    let ghost all_blocks = blocks@;
    let ghost all_roots = observed_roots@;
    let mut rest_blocks = blocks;
    let mut rest_roots = observed_roots;
    while i < SLOTS_PER_EPOCH as usize
        invariant
            all_blocks.len() == SLOTS_PER_EPOCH,
            all_roots.len() == SLOTS_PER_EPOCH,
            (epoch as int) * (SLOTS_PER_EPOCH as int) + (SLOTS_PER_EPOCH - 1) <= u64::MAX,
            base == epoch * SLOTS_PER_EPOCH,
            0 <= i <= SLOTS_PER_EPOCH,
            out@.len() == i,
            all_blocks == blocks@,
            all_roots == observed_roots@,
            forall|j: int|
                0 <= j < all_blocks.len() ==> ((#[trigger] all_blocks[j]) matches Some(b)
                    ==> b.body.wf()),
            forall|j: int|
                0 <= j < i ==> {
                    &&& (#[trigger] out@[j]).wf()
                    &&& out@[j].epoch == epoch
                    &&& out@[j].slot == epoch * SLOTS_PER_EPOCH + j
                },
            forall|j: int|
                0 <= j < i ==> consolidation_spec(
                    epoch,
                    (epoch * SLOTS_PER_EPOCH + j) as u64,
                    all_blocks[j],
                    all_roots[j],
                    duties@,
                    Ok(#[trigger] out@[j]),
                ),
            rest_blocks@ =~= all_blocks.skip(i as int),
            rest_roots@ =~= all_roots.skip(i as int),
        decreases SLOTS_PER_EPOCH - i,
    {
        let slot: u64 = base + (i as u64);
        proof {
            assert(rest_blocks@[0] == all_blocks[i as int]);
            assert(rest_roots@[0] == all_roots[i as int]);
        }
        let raw = rest_blocks.remove(0);
        let root = rest_roots.remove(0);
        match consolidate_block(epoch, slot, raw, root, duties) {
            Ok(cb) => {
                out.push(cb);
            },
            Err(e) => {
                proof {
                    assert(consolidation_spec(
                        epoch,
                        (epoch * SLOTS_PER_EPOCH + i) as u64,
                        all_blocks[i as int],
                        all_roots[i as int],
                        duties@,
                        Err(e),
                    ));
                    assert(epoch_error_spec(epoch, all_blocks, all_roots, duties@, e));
                }
                return Err(e);
            },
        }
        proof {
            assert(rest_blocks@ =~= all_blocks.skip(i as int + 1));
            assert(rest_roots@ =~= all_roots.skip(i as int + 1));
        }
        i = i + 1;
    }
    Ok(out)
}

/// Assembles the consolidated epoch from its parts. Pure aggregation: the
/// blocks must already be the epoch's per-slot run.
pub fn consolidate_epoch(
    epoch: u64,
    blocks: Vec<ConsolidatedBlock>,
    validators: Vec<ConsolidatedValidator>,
    validator_inclusion: ValidatorInclusion,
) -> (r: ConsolidatedEpoch)
    requires
        blocks@.len() == SLOTS_PER_EPOCH,
        (epoch as int) * (SLOTS_PER_EPOCH as int) + (SLOTS_PER_EPOCH - 1) <= u64::MAX,
        forall|i: int|
            0 <= i < blocks@.len() ==> {
                &&& (#[trigger] blocks@[i]).wf()
                &&& blocks@[i].epoch == epoch
                &&& blocks@[i].slot == epoch * SLOTS_PER_EPOCH + i
            },
        balances_total(validators@) <= u64::MAX,
    ensures
        r == (ConsolidatedEpoch { epoch, blocks, validators, validator_inclusion }),
        r.wf(),
{
    ConsolidatedEpoch { epoch, blocks, validators, validator_inclusion }
}

} // verus!
