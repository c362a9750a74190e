//! Error kinds of the indexing run.
//!
//! A failed fetch and a failed write both halt the run; each error names
//! the position in the chain at which it occurred.

use vstd::prelude::*;

verus! {

/// Why an indexing run stopped.
#[derive(Clone, Debug, PartialEq, Eq, Structural)]
pub enum IndexerError {
    /// The upstream data source could not be reached while working on the
    /// given epoch (and slot, for per-slot fetches).
    UpstreamUnavailable { epoch: u64, slot: Option<u64> },
    /// An entity that had to exist is absent: the proposer-duty table of an
    /// epoch holds no entry for the given slot.
    EntityNotFound { epoch: u64, slot: u64 },
    /// A datastore write failed while persisting the given epoch.
    PersistenceFailure { epoch: u64 },
}

} // verus!
