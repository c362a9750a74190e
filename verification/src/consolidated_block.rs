//! A consolidated per-slot record: what the indexer derives for one slot
//! from the upstream fetch, the observed block root, and the proposer
//! duties of the epoch.

use vstd::prelude::*;

use crate::convert::{clamped_i32, clamped_i64, into_clamped_i32, into_clamped_i64};
use crate::db_models::BlockModel;
use crate::errors::IndexerError;
use crate::text::str_eq_chars;

verus! {

/// The four-way status of a slot. A closed sum type: exactly one variant
/// holds of any block, and `Proposed` holds exactly when a block body was
/// retrieved for the slot.
#[derive(Clone, Copy, Debug, PartialEq, Eq, Structural)]
pub enum BlockStatus {
    Scheduled,
    Proposed,
    Missed,
    Orphaned,
}

impl BlockStatus {
    /// The persisted textual form of the status.
    pub open spec fn text_spec(self) -> Seq<char> {
        match self {
            BlockStatus::Scheduled => "Scheduled"@,
            BlockStatus::Proposed => "Proposed"@,
            BlockStatus::Missed => "Missed"@,
            BlockStatus::Orphaned => "Orphaned"@,
        }
    }

    /// The status a persisted text stands for, if any.
    pub open spec fn of_text_spec(s: Seq<char>) -> Option<BlockStatus> {
        if s == "Scheduled"@ {
            Some(BlockStatus::Scheduled)
        } else if s == "Proposed"@ {
            Some(BlockStatus::Proposed)
        } else if s == "Missed"@ {
            Some(BlockStatus::Missed)
        } else if s == "Orphaned"@ {
            Some(BlockStatus::Orphaned)
        } else {
            None
        }
    }

    /// Renders the status in its persisted textual form.
    pub fn as_text(&self) -> (r: String)
        ensures
            r@ == self.text_spec(),
    {
        match self {
            BlockStatus::Scheduled => String::from_str("Scheduled"),
            BlockStatus::Proposed => String::from_str("Proposed"),
            BlockStatus::Missed => String::from_str("Missed"),
            BlockStatus::Orphaned => String::from_str("Orphaned"),
        }
    }

    /// Reads a status back from its persisted textual form.
    pub fn from_text(s: &str) -> (r: Option<BlockStatus>)
        ensures
            r == Self::of_text_spec(s@),
    {
        if str_eq_chars(s, "Scheduled") {
            Some(BlockStatus::Scheduled)
        } else if str_eq_chars(s, "Proposed") {
            Some(BlockStatus::Proposed)
        } else if str_eq_chars(s, "Missed") {
            Some(BlockStatus::Missed)
        } else if str_eq_chars(s, "Orphaned") {
            Some(BlockStatus::Orphaned)
        } else {
            None
        }
    }
}

/// The textual form of a status names that status and no other: reading a
/// rendered status back always yields the status it came from.
pub proof fn lemma_status_text_roundtrip(st: BlockStatus)
    ensures
        BlockStatus::of_text_spec(st.text_spec()) == Some(st),
{
    reveal_strlit("Scheduled");
    reveal_strlit("Proposed");
    reveal_strlit("Missed");
    reveal_strlit("Orphaned");
    assert("Scheduled"@.len() == 9);
    assert("Proposed"@.len() == 8);
    assert("Missed"@.len() == 6);
    assert("Orphaned"@.len() == 8);
    assert("Proposed"@[0] == 'P');
    assert("Orphaned"@[0] == 'O');
}

/// What the consolidation reads from a retrieved block body, as plain
/// values: list lengths, roots, and the sync-aggregate summary.
#[derive(Clone, Debug)]
pub struct BlockData {
    pub parent_root: Vec<u8>,
    pub state_root: Vec<u8>,
    pub randao_reveal: Vec<u8>,
    pub graffiti: Vec<u8>,
    pub graffiti_text: String,
    pub eth1data_deposit_root: Vec<u8>,
    pub eth1data_deposit_count: u64,
    pub eth1data_block_hash: Vec<u8>,
    pub attestations_count: usize,
    pub deposits_count: usize,
    pub proposer_slashings_count: usize,
    pub attester_slashings_count: usize,
    pub voluntary_exits_count: usize,
    /// Set bits of the sync aggregate, absent when the body carries none.
    pub sync_bits_set: Option<u64>,
    /// Size of the sync committee the aggregate is measured against.
    pub sync_committee_size: u64,
}

/// The largest operation count a single block body may carry. The upstream
/// protocol caps each per-block operation list far below this, and the bound
/// keeps every per-epoch aggregate inside the machine word.
pub const MAX_BLOCK_COUNT: usize = 65535;

impl BlockData {
    /// Validity of a retrieved body: each operation count respects the
    /// per-block cap of the upstream protocol.
    pub open spec fn wf(self) -> bool {
        &&& self.attestations_count <= MAX_BLOCK_COUNT
        &&& self.deposits_count <= MAX_BLOCK_COUNT
        &&& self.proposer_slashings_count <= MAX_BLOCK_COUNT
        &&& self.attester_slashings_count <= MAX_BLOCK_COUNT
        &&& self.voluntary_exits_count <= MAX_BLOCK_COUNT
    }
}

/// The record the indexer derives for one slot.
#[derive(Clone, Debug)]
pub struct ConsolidatedBlock {
    pub epoch: u64,
    pub slot: u64,
    /// The retrieved body, absent when no block could be fetched for the slot.
    pub block: Option<BlockData>,
    /// The root the chain reports for the slot, present whenever one was
    /// observed regardless of status.
    pub block_root: Option<Vec<u8>>,
    pub signature: Vec<u8>,
    pub status: BlockStatus,
    pub proposer: u64,
}

impl ConsolidatedBlock {
    /// Validity of a consolidated record: `Proposed` exactly when a body
    /// was retrieved, `Orphaned` only when a root was observed, and a
    /// well-formed body when one is present.
    pub open spec fn wf(self) -> bool {
        &&& self.status is Proposed <==> self.block is Some
        &&& self.status is Orphaned ==> self.block_root is Some
        &&& match self.block {
            Some(b) => b.wf(),
            None => true,
        }
    }

    pub fn new(
        epoch: u64,
        slot: u64,
        block: Option<BlockData>,
        block_root: Option<Vec<u8>>,
        signature: Vec<u8>,
        status: BlockStatus,
        proposer: u64,
    ) -> (r: ConsolidatedBlock)
        ensures
            r == (ConsolidatedBlock { epoch, slot, block, block_root, signature, status, proposer }),
    {
        ConsolidatedBlock { epoch, slot, block, block_root, signature, status, proposer }
    }

    /// The observed root as a column value: the root bytes, or empty when
    /// none was observed.
    pub open spec fn root_column_spec(self) -> Seq<u8> {
        match self.block_root {
            Some(r) => r@,
            None => Seq::<u8>::empty(),
        }
    }

    /// Field-by-field description of the datastore row this record maps to.
    pub open spec fn models(self, m: BlockModel) -> bool {
        &&& m.epoch == clamped_i64(self.epoch)
        &&& m.slot == clamped_i64(self.slot)
        &&& m.block_root@ == self.root_column_spec()
        &&& m.proposer == clamped_i32(self.proposer)
        &&& m.status@ == self.status.text_spec()
        &&& match self.block {
            Some(b) => {
                &&& m.parent_root@ == b.parent_root@
                &&& m.state_root@ == b.state_root@
                &&& m.randao_reveal matches Some(v) && v@ == b.randao_reveal@
                &&& m.signature@ == self.signature@
                &&& m.graffiti matches Some(v) && v@ == b.graffiti@
                &&& m.graffiti_text matches Some(t) && t@ == b.graffiti_text@
                &&& m.eth1data_deposit_root matches Some(v) && v@ == b.eth1data_deposit_root@
                &&& m.eth1data_deposit_count == clamped_i32(b.eth1data_deposit_count)
                &&& m.eth1data_block_hash matches Some(v) && v@ == b.eth1data_block_hash@
                &&& m.proposer_slashings_count == clamped_i32(b.proposer_slashings_count as u64)
                &&& m.attester_slashings_count == clamped_i32(b.attester_slashings_count as u64)
                &&& m.attestations_count == clamped_i32(b.attestations_count as u64)
                &&& m.deposits_count == clamped_i32(b.deposits_count as u64)
                &&& m.voluntary_exits_count == clamped_i32(b.voluntary_exits_count as u64)
            },
            None => {
                &&& m.parent_root@ == Seq::<u8>::empty()
                &&& m.state_root@ == Seq::<u8>::empty()
                &&& m.randao_reveal is None
                &&& m.signature@ == Seq::<u8>::empty()
                &&& m.graffiti is None
                &&& m.graffiti_text is None
                &&& m.eth1data_deposit_root is None
                &&& m.eth1data_deposit_count == 0
                &&& m.eth1data_block_hash is None
                &&& m.proposer_slashings_count == 0
                &&& m.attester_slashings_count == 0
                &&& m.attestations_count == 0
                &&& m.deposits_count == 0
                &&& m.voluntary_exits_count == 0
            },
        }
    }

    /// Maps the record to its datastore row. Never fails; the `Result`
    /// shape matches the write path it feeds.
    pub fn as_model(&self) -> (r: Result<BlockModel, IndexerError>)
        ensures
            r matches Ok(m) && self.models(m),
    {
        let status_text = self.status.as_text();
        let epoch_col = into_clamped_i64(self.epoch);
        let slot_col = into_clamped_i64(self.slot);
        let proposer_col = into_clamped_i32(self.proposer);
        let root_col = match &self.block_root {
            Some(r) => r.clone(),
            None => Vec::new(),
        };
        match &self.block {
            Some(b) => Ok(BlockModel {
                epoch: epoch_col,
                slot: slot_col,
                block_root: root_col,
                parent_root: b.parent_root.clone(),
                state_root: b.state_root.clone(),
                randao_reveal: Some(b.randao_reveal.clone()),
                signature: self.signature.clone(),
                graffiti: Some(b.graffiti.clone()),
                graffiti_text: Some(b.graffiti_text.clone()),
                eth1data_deposit_root: Some(b.eth1data_deposit_root.clone()),
                eth1data_deposit_count: into_clamped_i32(b.eth1data_deposit_count),
                eth1data_block_hash: Some(b.eth1data_block_hash.clone()),
                proposer_slashings_count: into_clamped_i32(b.proposer_slashings_count as u64),
                attester_slashings_count: into_clamped_i32(b.attester_slashings_count as u64),
                attestations_count: into_clamped_i32(b.attestations_count as u64),
                deposits_count: into_clamped_i32(b.deposits_count as u64),
                voluntary_exits_count: into_clamped_i32(b.voluntary_exits_count as u64),
                proposer: proposer_col,
                status: status_text,
            }),
            None => Ok(BlockModel {
                epoch: epoch_col,
                slot: slot_col,
                block_root: root_col,
                parent_root: Vec::new(),
                state_root: Vec::new(),
                randao_reveal: None,
                signature: Vec::new(),
                graffiti: None,
                graffiti_text: None,
                eth1data_deposit_root: None,
                eth1data_deposit_count: 0,
                eth1data_block_hash: None,
                proposer_slashings_count: 0,
                attester_slashings_count: 0,
                attestations_count: 0,
                deposits_count: 0,
                voluntary_exits_count: 0,
                proposer: proposer_col,
                status: status_text,
            }),
        }
    }

    pub fn get_attestations_count(&self) -> (r: usize)
        ensures
            r == match self.block {
                None => 0usize,
                Some(b) => b.attestations_count,
            },
    {
        match &self.block {
            None => 0,
            Some(b) => b.attestations_count,
        }
    }

    pub fn get_deposits_count(&self) -> (r: usize)
        ensures
            r == match self.block {
                None => 0usize,
                Some(b) => b.deposits_count,
            },
    {
        match &self.block {
            None => 0,
            Some(b) => b.deposits_count,
        }
    }

    pub fn get_voluntary_exits_count(&self) -> (r: usize)
        ensures
            r == match self.block {
                None => 0usize,
                Some(b) => b.voluntary_exits_count,
            },
    {
        match &self.block {
            None => 0,
            Some(b) => b.voluntary_exits_count,
        }
    }

    pub fn get_proposer_slashings_count(&self) -> (r: usize)
        ensures
            r == match self.block {
                None => 0usize,
                Some(b) => b.proposer_slashings_count,
            },
    {
        match &self.block {
            None => 0,
            Some(b) => b.proposer_slashings_count,
        }
    }

    pub fn get_attester_slashings_count(&self) -> (r: usize)
        ensures
            r == match self.block {
                None => 0usize,
                Some(b) => b.attester_slashings_count,
            },
    {
        match &self.block {
            None => 0,
            Some(b) => b.attester_slashings_count,
        }
    }
}

} // verus!
