//! The validator listing served to the snapshot's consumers: every
//! validator of the set, converted into column types where it fits, an
//! absent entry where it does not.

use vstd::prelude::*;

use crate::validator::ValidatorModel;
use crate::views::ValidatorView;

verus! {

/// Whether a validator record, keyed by its position in the set, fits the
/// signed column types of the consumer view: index and balances in
/// range, and every epoch of its lifecycle known.
pub open spec fn convertible(m: ValidatorModel, index: int) -> bool {
    &&& index <= i32::MAX
    &&& m.balance <= i64::MAX
    &&& m.balance_activation <= i64::MAX
    &&& m.effective_balance <= i64::MAX
    &&& m.activation_epoch <= i64::MAX
    &&& m.withdrawable_epoch matches Some(e) && e <= i64::MAX
    &&& m.activation_eligibility_epoch matches Some(e) && e <= i64::MAX
    &&& m.exit_epoch matches Some(e) && e <= i64::MAX
}

/// Field-by-field description of the view a record converts to.
pub open spec fn view_matches(m: ValidatorModel, index: int, v: ValidatorView) -> bool {
    &&& v.validator_index == index
    &&& v.pubkey@ == m.pubkey@
    &&& v.pubkey_hex@ == m.pubkey_hex@
    &&& m.withdrawable_epoch matches Some(e) && v.withdrawable_epoch == e
    &&& v.withdrawal_credentials@ == m.withdrawal_credentials@
    &&& v.balance == m.balance
    &&& v.balance_activation matches Some(b) && b == m.balance_activation
    &&& v.effective_balance == m.effective_balance
    &&& v.slashed == m.slashed
    &&& m.activation_eligibility_epoch matches Some(e) && v.activation_eligibility_epoch == e
    &&& v.activation_epoch == m.activation_epoch
    &&& m.exit_epoch matches Some(e) && v.exit_epoch == e
    &&& v.status@ == m.status@
}

/// Converts one validator record into the consumer view, if it fits.
pub fn convert_validator(m: &ValidatorModel, index: usize) -> (r: Option<ValidatorView>)
    ensures
        match r {
            Some(v) => convertible(*m, index as int) && view_matches(*m, index as int, v),
            None => !convertible(*m, index as int),
        },
{
    if index as u64 > i32::MAX as u64 || m.balance > i64::MAX as u64 || m.balance_activation
        > i64::MAX as u64 || m.effective_balance > i64::MAX as u64 || m.activation_epoch
        > i64::MAX as u64 {
        return None;
    }
    let withdrawable_epoch = match m.withdrawable_epoch {
        Some(e) => if e > i64::MAX as u64 {
            return None;
        } else {
            e as i64
        },
        None => {
            return None;
        },
    };
    let activation_eligibility_epoch = match m.activation_eligibility_epoch {
        Some(e) => if e > i64::MAX as u64 {
            return None;
        } else {
            e as i64
        },
        None => {
            return None;
        },
    };
    let exit_epoch = match m.exit_epoch {
        Some(e) => if e > i64::MAX as u64 {
            return None;
        } else {
            e as i64
        },
        None => {
            return None;
        },
    };
    Some(
        ValidatorView {
            validator_index: index as i32,
            pubkey: m.pubkey.clone(),
            pubkey_hex: m.pubkey_hex.clone(),
            withdrawable_epoch,
            withdrawal_credentials: m.withdrawal_credentials.clone(),
            balance: m.balance as i64,
            balance_activation: Some(m.balance_activation as i64),
            effective_balance: m.effective_balance as i64,
            slashed: m.slashed,
            activation_eligibility_epoch,
            activation_epoch: m.activation_epoch as i64,
            exit_epoch,
            status: m.status.clone(),
        },
    )
}

/// The validator listing: a heading trail and one optional view per
/// validator of the set.
pub struct ValidatorsContext {
    pub breadcrumb: Vec<String>,
    pub validators: Vec<Option<ValidatorView>>,
}

impl ValidatorsContext {
    /// Builds the listing from the validator set, in set order. A record
    /// that does not fit the view's column types yields an absent entry,
    /// never a truncated one.
    pub fn new(validators: Vec<ValidatorModel>) -> (r: Self)
        ensures
            r.breadcrumb@.len() == 1 && r.breadcrumb@[0]@ == "Validators"@,
            r.validators@.len() == validators@.len(),
            forall|i: int|
                0 <= i < validators@.len() ==> match #[trigger] r.validators@[i] {
                    Some(v) => convertible(validators@[i], i) && view_matches(
                        validators@[i],
                        i,
                        v,
                    ),
                    None => !convertible(validators@[i], i),
                },
    {
        let mut breadcrumb: Vec<String> = Vec::new();
        breadcrumb.push(String::from_str("Validators"));
        let mut out: Vec<Option<ValidatorView>> = Vec::new();
        let mut i: usize = 0;
        let n = validators.len();
        while i < n
            invariant
                n == validators@.len(),
                0 <= i <= n,
                out@.len() == i,
                forall|j: int|
                    0 <= j < i ==> match #[trigger] out@[j] {
                        Some(v) => convertible(validators@[j], j) && view_matches(
                            validators@[j],
                            j,
                            v,
                        ),
                        None => !convertible(validators@[j], j),
                    },
            decreases n - i,
        {
            out.push(convert_validator(&validators[i], i));
            i = i + 1;
        }
        ValidatorsContext { breadcrumb, validators: out }
    }
}

} // verus!
