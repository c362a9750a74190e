//! The per-epoch proposer-duty cache, populated at most once per epoch.
//!
//! Many concurrent slot lookups in one epoch may read the cache; exactly
//! one performs the upstream fetch on a miss. The cache itself decides
//! only who fetches: a lookup is answered from the cache, told to wait for
//! a fetch already in flight, or told to start the one fetch. The caller
//! runs the fetch and hands the result back through `complete_fetch`.

use vstd::prelude::*;
use vstd::std_specs::hash::group_hash_axioms;

use std::collections::HashMap;

use crate::consolidator::RawDuty;

verus! {

broadcast use group_hash_axioms;

/// One epoch's entry as stored.
#[derive(Clone, Debug)]
pub enum DutyEntry {
    /// The single upstream fetch for this epoch has started and not yet
    /// completed.
    InFlight,
    /// The duty table of this epoch.
    Ready(Vec<RawDuty>),
}

/// What a lookup tells its caller to do.
#[derive(Clone, Debug)]
pub enum LookupAction {
    /// The duty table was already cached; use it.
    UseCached(Vec<RawDuty>),
    /// Another lookup is fetching this epoch; wait for it.
    Wait,
    /// This lookup must perform the one upstream fetch for the epoch.
    StartFetch,
}

/// The abstract state of one epoch in the cache.
pub enum DutyState {
    NotRequested,
    InFlight,
    Ready(Seq<RawDuty>),
}

/// One cache operation, as the single-flight law speaks of them.
pub enum CacheOp {
    Begin(u64),
    Complete(u64, Seq<RawDuty>),
}

/// The abstract state of epoch `e` under model `m`; an absent key means
/// the epoch was never requested.
pub open spec fn model_state(m: Map<u64, DutyState>, e: u64) -> DutyState {
    if m.contains_key(e) {
        m[e]
    } else {
        DutyState::NotRequested
    }
}

/// How one operation changes the model.
pub open spec fn apply_op(m: Map<u64, DutyState>, op: CacheOp) -> Map<u64, DutyState> {
    match op {
        CacheOp::Begin(e) => if model_state(m, e) is NotRequested {
            m.insert(e, DutyState::InFlight)
        } else {
            m
        },
        CacheOp::Complete(e, d) => if model_state(m, e) is InFlight {
            m.insert(e, DutyState::Ready(d))
        } else {
            m
        },
    }
}

/// Whether an operation starts the upstream fetch for epoch `e`.
pub open spec fn op_starts_fetch(m: Map<u64, DutyState>, op: CacheOp, e: u64) -> bool {
    op == CacheOp::Begin(e) && model_state(m, e) is NotRequested
}

/// How many operations of a run start the upstream fetch for epoch `e`.
pub open spec fn start_count(m: Map<u64, DutyState>, trace: Seq<CacheOp>, e: u64) -> nat
    decreases trace.len(),
{
    if trace.len() == 0 {
        0
    } else {
        (if op_starts_fetch(m, trace.first(), e) {
            1nat
        } else {
            0nat
        }) + start_count(apply_op(m, trace.first()), trace.drop_first(), e)
    }
}

/// The single-flight law: under any run of lookups and completions, the
/// upstream duty fetch of an epoch starts at most once — and not even
/// once where the epoch was already requested.
pub proof fn lemma_single_flight(m: Map<u64, DutyState>, trace: Seq<CacheOp>, e: u64)
    ensures
        start_count(m, trace, e) <= (if model_state(m, e) is NotRequested {
            1int
        } else {
            0int
        }),
    decreases trace.len(),
{
    if trace.len() > 0 {
        let op = trace.first();
        let m2 = apply_op(m, op);
        assert(model_state(m2, e) is NotRequested ==> model_state(m, e) is NotRequested);
        lemma_single_flight(m2, trace.drop_first(), e);
    }
}

/// The keyed, lazily-populated duty cache.
pub struct DutyCache {
    entries: HashMap<u64, DutyEntry>,
}

/// The abstract state an entry stands for.
pub open spec fn entry_state(e: DutyEntry) -> DutyState {
    match e {
        DutyEntry::InFlight => DutyState::InFlight,
        DutyEntry::Ready(d) => DutyState::Ready(d@),
    }
}

fn copy_duties(src: &Vec<RawDuty>) -> (r: Vec<RawDuty>)
    ensures
        r@ == src@,
{
    let mut r: Vec<RawDuty> = Vec::new();
    let mut i: usize = 0;
    let n = src.len();
    while i < n
        invariant
            n == src@.len(),
            0 <= i <= n,
            r@ =~= src@.take(i as int),
        decreases n - i,
    {
        r.push(src[i]);
        proof {
            assert(r@ =~= src@.take(i as int + 1));
        }
        i = i + 1;
    }
    proof {
        assert(src@.take(n as int) =~= src@);
    }
    r
}

impl DutyCache {
    /// The cache's abstract model: the state of every requested epoch.
    pub closed spec fn model(self) -> Map<u64, DutyState> {
        self.entries@.map_values(|v: DutyEntry| entry_state(v))
    }

    /// An empty cache: no epoch requested.
    pub fn new() -> (r: DutyCache)
        ensures
            r.model() == Map::<u64, DutyState>::empty(),
    {
        let r = DutyCache { entries: HashMap::new() };
        proof {
            assert(r.model() =~= Map::<u64, DutyState>::empty());
        }
        r
    }

    /// One slot lookup's first step for an epoch: answered from the
    /// cache, told to wait, or — exactly when the epoch was never
    /// requested — told to start the one upstream fetch, which is then
    /// recorded as in flight.
    pub fn begin_lookup(&mut self, epoch: u64) -> (r: LookupAction)
        ensures
            final(self).model() == apply_op(old(self).model(), CacheOp::Begin(epoch)),
            r is StartFetch <==> op_starts_fetch(old(self).model(), CacheOp::Begin(epoch), epoch),
            match model_state(old(self).model(), epoch) {
                DutyState::NotRequested => r is StartFetch,
                DutyState::InFlight => r is Wait,
                DutyState::Ready(d) => r matches LookupAction::UseCached(v) && v@ == d,
            },
    {
        let present = self.entries.contains_key(&epoch);
        if present {
            let r = match self.entries.get(&epoch) {
                Some(entry) => match entry {
                    DutyEntry::InFlight => LookupAction::Wait,
                    DutyEntry::Ready(d) => LookupAction::UseCached(copy_duties(d)),
                },
                None => unreached(),
            };
            proof {
                assert(self.model() =~= apply_op(old(self).model(), CacheOp::Begin(epoch)));
            }
            r
        } else {
            self.entries.insert(epoch, DutyEntry::InFlight);
            proof {
                assert(self.model() =~= apply_op(old(self).model(), CacheOp::Begin(epoch)));
            }
            LookupAction::StartFetch
        }
    }

    /// Records the result of the one upstream fetch for an epoch. Every
    /// lookup of that epoch is answered from the cache from here on.
    pub fn complete_fetch(&mut self, epoch: u64, duties: Vec<RawDuty>)
        requires
            model_state(old(self).model(), epoch) is InFlight,
        ensures
            final(self).model() == apply_op(
                old(self).model(),
                CacheOp::Complete(epoch, duties@),
            ),
            model_state(final(self).model(), epoch) == DutyState::Ready(duties@),
    {
        self.entries.insert(epoch, DutyEntry::Ready(duties));
        proof {
            assert(self.model() =~= apply_op(old(self).model(), CacheOp::Complete(epoch, duties@)));
        }
    }
}

} // verus!
