//! Row types of the relational datastore: one row per epoch and one row
//! per slot, foreign-keyed by epoch. Signed column types mirror the
//! datastore schema; producers clamp unsigned values into them.

use vstd::prelude::*;

verus! {

/// A participation ratio reported as its two operands, so that no division
/// is performed on the write path. The ratio is `voted_gwei / eligible_gwei`;
/// a rate is only ever built with a positive denominator.
#[derive(Clone, Copy, Debug, PartialEq, Eq, Structural)]
pub struct ParticipationRate {
    pub voted_gwei: u64,
    pub eligible_gwei: u64,
}

/// The aggregate row written once per epoch.
#[derive(Clone, Debug)]
pub struct EpochModel {
    pub epoch: i64,
    pub blocks_count: i32,
    pub proposer_slashings_count: i32,
    pub attester_slashings_count: i32,
    pub attestations_count: i32,
    pub deposits_count: i32,
    pub voluntary_exits_count: i32,
    pub validators_count: i32,
    /// Absent when the epoch carries no validators: the average is then
    /// undefined and is surfaced as an absent value, never computed.
    pub average_validator_balance: Option<i64>,
    pub total_validator_balance: i64,
    pub finalized: bool,
    pub eligible_ether: Option<i64>,
    /// Absent when `eligible_ether` is zero: the rate is then undefined.
    pub global_participation_rate: Option<ParticipationRate>,
    pub voted_ether: Option<i64>,
}

/// The detail row written once per slot of an epoch.
#[derive(Clone, Debug)]
pub struct BlockModel {
    pub epoch: i64,
    pub slot: i64,
    pub block_root: Vec<u8>,
    pub parent_root: Vec<u8>,
    pub state_root: Vec<u8>,
    pub randao_reveal: Option<Vec<u8>>,
    pub signature: Vec<u8>,
    pub graffiti: Option<Vec<u8>>,
    pub graffiti_text: Option<String>,
    pub eth1data_deposit_root: Option<Vec<u8>>,
    pub eth1data_deposit_count: i32,
    pub eth1data_block_hash: Option<Vec<u8>>,
    pub proposer_slashings_count: i32,
    pub attester_slashings_count: i32,
    pub attestations_count: i32,
    pub deposits_count: i32,
    pub voluntary_exits_count: i32,
    pub proposer: i32,
    /// Textual form of the four-way block status.
    pub status: String,
}

/// One write against the datastore. An epoch is persisted as its epoch row
/// followed by its block rows in slot-ascending order.
#[derive(Clone, Debug)]
pub enum RowWrite {
    Epoch(EpochModel),
    Block(BlockModel),
}

} // verus!
