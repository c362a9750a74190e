//! The attestation shape served to snapshot consumers.

use vstd::prelude::*;

verus! {

/// An attestation as the snapshot stores it.
#[derive(Clone, Debug)]
pub struct AttestationModel {
    pub aggregation_bits: Vec<bool>,
    pub committee_index: u64,
    pub beacon_block_root: String,
    pub source: u64,
    pub target: u64,
    pub signature: String,
}

/// An attestation as a snapshot consumer sees it.
#[derive(Clone, Debug)]
pub struct AttestationView {
    pub aggregation_bits: Vec<bool>,
    pub committee_index: u64,
    pub beacon_block_root: String,
    pub source: u64,
    pub target: u64,
    pub signature: String,
}

impl From<AttestationModel> for AttestationView {
    fn from(model: AttestationModel) -> (r: Self) {
        AttestationView {
            aggregation_bits: model.aggregation_bits,
            committee_index: model.committee_index,
            beacon_block_root: model.beacon_block_root,
            source: model.source,
            target: model.target,
            signature: model.signature,
        }
    }
}

impl vstd::std_specs::convert::FromSpecImpl<AttestationModel> for AttestationView {
    open spec fn obeys_from_spec() -> bool {
        true
    }

    open spec fn from_spec(model: AttestationModel) -> Self {
        AttestationView {
            aggregation_bits: model.aggregation_bits,
            committee_index: model.committee_index,
            beacon_block_root: model.beacon_block_root,
            source: model.source,
            target: model.target,
            signature: model.signature,
        }
    }
}

} // verus!
