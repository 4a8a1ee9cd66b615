//! Who is acting: proxy authorization from the transaction's inputs.
//!
//! The acting party is inferred from the presence of a matching lock hash
//! among the transaction's input cells — a capability-presence check, not
//! a signature check.  The creator takes precedence when both identifiers
//! are present.

use vstd::prelude::*;
use crate::bytes::bytes_eq;
use crate::codec::{VestingConfig, VestingConfigView};
use crate::tx::{Cell, CellView, cells_view};

verus! {

/// The party a validation call acts for.
#[derive(Debug, Clone, Copy, PartialEq, Eq, Structural)]
pub enum AuthorizationType {
    Creator,
    Beneficiary,
    Anonymous,
}

/// Whether some input cell carries the given lock hash.
pub open spec fn spec_any_input_has_lock(inputs: Seq<CellView>, hash: Seq<u8>) -> bool {
    exists|i: int| 0 <= i < inputs.len() && inputs[i].lock_hash == hash
}

/// The authorization class of a transaction: `Creator` when any input
/// carries the creator's lock hash, else `Beneficiary` when any input
/// carries the beneficiary's, else `Anonymous`.
pub open spec fn spec_authorization(
    inputs: Seq<CellView>,
    config: VestingConfigView,
) -> AuthorizationType {
    if spec_any_input_has_lock(inputs, config.creator_lock_hash) {
        AuthorizationType::Creator
    } else if spec_any_input_has_lock(inputs, config.beneficiary_lock_hash) {
        AuthorizationType::Beneficiary
    } else {
        AuthorizationType::Anonymous
    }
}

/// Whether any of `inputs` carries the lock hash `hash`.
fn any_input_has_lock(inputs: &Vec<Cell>, hash: &[u8]) -> (r: bool)
    ensures
        r == spec_any_input_has_lock(cells_view(inputs@), hash@),
{
    let ghost cv = cells_view(inputs@);
    let mut i: usize = 0;
    while i < inputs.len()
        invariant
            cv == cells_view(inputs@),
            0 <= i <= inputs@.len(),
            cv.len() == inputs@.len(),
            forall|j: int| 0 <= j < i ==> cv[j].lock_hash != hash@,
        decreases inputs@.len() - i,
    {
        if bytes_eq(inputs[i].lock_hash.as_slice(), hash) {
            proof {
                assert(cv[i as int].lock_hash == hash@);
            }
            return true;
        }
        i = i + 1;
    }
    false
}

/// Classifies the acting party from the input cells' lock hashes.
pub fn determine_authorization_type(
    inputs: &Vec<Cell>,
    config: &VestingConfig,
) -> (r: AuthorizationType)
    ensures
        r == spec_authorization(cells_view(inputs@), config@),
{
    if any_input_has_lock(inputs, config.creator_lock_hash.as_slice()) {
        AuthorizationType::Creator
    } else if any_input_has_lock(inputs, config.beneficiary_lock_hash.as_slice()) {
        AuthorizationType::Beneficiary
    } else {
        AuthorizationType::Anonymous
    }
}

} // verus!
