//! Validator records as exchanged between the indexer and the snapshot
//! consumers, and the metadata record that closes a validator run.

use vstd::prelude::*;

verus! {

/// A validator as the snapshot stores it, keyed externally by its index.
#[derive(Clone, Debug)]
pub struct ValidatorModel {
    pub pubkey: Vec<u8>,
    pub pubkey_hex: String,
    pub withdrawable_epoch: Option<u64>,
    pub withdrawal_credentials: Vec<u8>,
    pub balance: u64,
    pub balance_activation: u64,
    pub effective_balance: u64,
    pub slashed: bool,
    pub activation_eligibility_epoch: Option<u64>,
    pub activation_epoch: u64,
    pub exit_epoch: Option<u64>,
    pub status: String,
}

/// A record together with the entity id that addresses it.
#[derive(Clone, Debug)]
pub struct ModelWithId<M> {
    pub id: u64,
    pub model: M,
}

pub type ValidatorModelWithId = ModelWithId<ValidatorModel>;

/// A validator record flattened together with its index, the shape the
/// snapshot serves to clients.
#[derive(Clone, Debug)]
pub struct ValidatorView {
    pub validator_index: u64,
    pub model: ValidatorModel,
}

impl From<ValidatorModelWithId> for ValidatorView {
    fn from(value: ValidatorModelWithId) -> (r: Self) {
        ValidatorView { validator_index: value.id, model: value.model }
    }
}

impl vstd::std_specs::convert::FromSpecImpl<ValidatorModelWithId> for ValidatorView {
    open spec fn obeys_from_spec() -> bool {
        true
    }

    open spec fn from_spec(value: ValidatorModelWithId) -> Self {
        ValidatorView { validator_index: value.id, model: value.model }
    }
}

/// The metadata record of a validator snapshot run, written last: its
/// presence signals a complete run.
#[derive(Clone, Copy, Debug, PartialEq, Eq, Structural)]
pub struct ValidatorsMeta {
    pub count: usize,
}

impl ValidatorsMeta {
    pub fn new(count: usize) -> (r: Self)
        ensures
            r.count == count,
    {
        ValidatorsMeta { count }
    }
}

} // verus!
