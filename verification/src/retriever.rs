//! The retrieval loop's decisions, as a state machine.
//!
//! The loop walks the upstream sequence epoch by epoch: attempt an epoch,
//! consolidate, persist, advance. On the first failure — or on an
//! external cancellation, observed only between epochs — the loop stops
//! at once: no retry, no skip. After the epoch phase, exactly one
//! best-effort validator-set refresh runs; its failure is not fatal. The
//! caller performs the fetches and writes and reports each outcome as an
//! event.

use vstd::prelude::*;

use crate::errors::IndexerError;

verus! {

/// The phase of a run. Phases only advance; a run never returns to
/// fetching epochs.
#[derive(Clone, Copy, Debug, PartialEq, Eq, Structural)]
pub enum RetrieverPhase {
    /// Walking the epoch sequence.
    Epochs,
    /// The epoch loop has stopped; the one validator refresh is owed.
    Validators,
    /// The run is over.
    Done,
}

/// What the caller reports back after performing an action.
#[derive(Clone, Debug, PartialEq, Eq, Structural)]
pub enum RetrieverEvent {
    /// The attempted epoch was consolidated and persisted in full.
    EpochOk,
    /// Fetch, consolidation or persistence of the attempted epoch failed.
    EpochFailed(IndexerError),
    /// An external interrupt asked the run to stop after the current epoch.
    Cancelled,
    /// The validator-set refresh succeeded.
    ValidatorsOk,
    /// The validator-set refresh failed; logged, not fatal.
    ValidatorsFailed,
}

/// What the caller must do next.
#[derive(Clone, Copy, Debug, PartialEq, Eq, Structural)]
pub enum RetrieverAction {
    /// Fetch, consolidate and persist this epoch.
    FetchEpoch(u64),
    /// Perform the one best-effort validator-set refresh.
    RefreshValidators,
    /// Nothing is left to do.
    Stop,
}

/// The retrieval loop's state between actions.
pub struct Retriever {
    pub phase: RetrieverPhase,
    /// The next epoch to attempt while in the epoch phase.
    pub next_epoch: u64,
    /// The epochs persisted so far, in the order they completed.
    pub persisted: Ghost<Seq<u64>>,
    /// The failure that stopped the epoch loop, if one did.
    pub failure: Option<IndexerError>,
}

impl Retriever {
    /// The epochs persisted are exactly `start_epoch .. next_epoch`, in
    /// ascending order.
    pub open spec fn persisted_exactly(self, start_epoch: u64) -> bool {
        &&& self.persisted@.len() == self.next_epoch - start_epoch
        &&& forall|i: int| 0 <= i < self.persisted@.len() ==> self.persisted@[i] == start_epoch + i
    }

    /// A fresh run, about to attempt `start_epoch`.
    pub fn new(start_epoch: u64) -> (r: Retriever)
        ensures
            r.phase == RetrieverPhase::Epochs,
            r.next_epoch == start_epoch,
            r.persisted@ == Seq::<u64>::empty(),
            r.failure is None,
            r.persisted_exactly(start_epoch),
    {
        Retriever {
            phase: RetrieverPhase::Epochs,
            next_epoch: start_epoch,
            persisted: Ghost(Seq::empty()),
            failure: None,
        }
    }

    /// The action owed in the current state: the next epoch while
    /// fetching, the one validator refresh after the loop stopped, then
    /// nothing.
    pub fn next_action(&self) -> (r: RetrieverAction)
        ensures
            r == match self.phase {
                RetrieverPhase::Epochs => RetrieverAction::FetchEpoch(self.next_epoch),
                RetrieverPhase::Validators => RetrieverAction::RefreshValidators,
                RetrieverPhase::Done => RetrieverAction::Stop,
            },
    {
        match self.phase {
            RetrieverPhase::Epochs => RetrieverAction::FetchEpoch(self.next_epoch),
            RetrieverPhase::Validators => RetrieverAction::RefreshValidators,
            RetrieverPhase::Done => RetrieverAction::Stop,
        }
    }

    /// Advances the state on the caller's report. A persisted epoch moves
    /// the loop to the next epoch; a failure or a cancellation ends the
    /// epoch phase at once, so no epoch after the failed one is ever
    /// attempted; either refresh outcome ends the run.
    pub fn step(&mut self, event: RetrieverEvent)
        requires
            old(self).phase is Epochs && event is EpochOk ==> old(self).next_epoch < u64::MAX,
        ensures
            final(self).phase == match old(self).phase {
                RetrieverPhase::Epochs => match event {
                    RetrieverEvent::EpochOk => RetrieverPhase::Epochs,
                    RetrieverEvent::EpochFailed(_) => RetrieverPhase::Validators,
                    RetrieverEvent::Cancelled => RetrieverPhase::Validators,
                    _ => old(self).phase,
                },
                RetrieverPhase::Validators => match event {
                    RetrieverEvent::ValidatorsOk => RetrieverPhase::Done,
                    RetrieverEvent::ValidatorsFailed => RetrieverPhase::Done,
                    _ => old(self).phase,
                },
                RetrieverPhase::Done => RetrieverPhase::Done,
            },
            final(self).next_epoch == (if old(self).phase is Epochs && event is EpochOk {
                (old(self).next_epoch + 1) as u64
            } else {
                old(self).next_epoch
            }),
            final(self).persisted@ == (if old(self).phase is Epochs && event is EpochOk {
                old(self).persisted@.push(old(self).next_epoch)
            } else {
                old(self).persisted@
            }),
            final(self).failure == (match event {
                RetrieverEvent::EpochFailed(e) => if old(self).phase is Epochs {
                    Some(e)
                } else {
                    old(self).failure
                },
                _ => old(self).failure,
            }),
    {
        match self.phase {
            RetrieverPhase::Epochs => match event {
                RetrieverEvent::EpochOk => {
                    self.persisted = Ghost(self.persisted@.push(self.next_epoch));
                    self.next_epoch = self.next_epoch + 1;
                },
                RetrieverEvent::EpochFailed(e) => {
                    self.failure = Some(e);
                    self.phase = RetrieverPhase::Validators;
                },
                RetrieverEvent::Cancelled => {
                    self.phase = RetrieverPhase::Validators;
                },
                _ => {},
            },
            RetrieverPhase::Validators => match event {
                RetrieverEvent::ValidatorsOk => {
                    self.phase = RetrieverPhase::Done;
                },
                RetrieverEvent::ValidatorsFailed => {
                    self.phase = RetrieverPhase::Done;
                },
                _ => {},
            },
            RetrieverPhase::Done => {},
        }
    }
}

/// The fail-fast law, one step at a time: a step preserves "the epochs
/// persisted are exactly `start_epoch ..  next_epoch`", and once the
/// epoch phase is over — after a failure or a cancellation — no step
/// ever yields a `FetchEpoch` action again, so every epoch before the
/// failed one stays persisted and none after it is attempted.
pub proof fn lemma_fail_fast_step(
    pre: Retriever,
    post: Retriever,
    event: RetrieverEvent,
    start_epoch: u64,
)
    requires
        pre.persisted_exactly(start_epoch),
        pre.next_epoch < u64::MAX,
        post.phase == (match pre.phase {
            RetrieverPhase::Epochs => match event {
                RetrieverEvent::EpochOk => RetrieverPhase::Epochs,
                RetrieverEvent::EpochFailed(_) => RetrieverPhase::Validators,
                RetrieverEvent::Cancelled => RetrieverPhase::Validators,
                _ => pre.phase,
            },
            RetrieverPhase::Validators => match event {
                RetrieverEvent::ValidatorsOk => RetrieverPhase::Done,
                RetrieverEvent::ValidatorsFailed => RetrieverPhase::Done,
                _ => pre.phase,
            },
            RetrieverPhase::Done => RetrieverPhase::Done,
        }),
        post.next_epoch == (if pre.phase is Epochs && event is EpochOk {
            (pre.next_epoch + 1) as u64
        } else {
            pre.next_epoch
        }),
        post.persisted@ == (if pre.phase is Epochs && event is EpochOk {
            pre.persisted@.push(pre.next_epoch)
        } else {
            pre.persisted@
        }),
    ensures
        post.persisted_exactly(start_epoch),
        !(pre.phase is Epochs) ==> !(post.phase is Epochs),
        !(pre.phase is Epochs) ==> post.persisted@ == pre.persisted@,
{
}

} // verus!
