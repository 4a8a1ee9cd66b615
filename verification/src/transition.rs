//! The transition rules: which before/after accounting states are legal
//! for each operation class.
//!
//! Exactly one of three operation classes applies per call — creator
//! termination, beneficiary claim, or anonymous freshness update — chosen
//! by the authorization class resolved up front.  Every check is local and
//! short-circuits: the first failing condition names the rejection.

use vstd::prelude::*;
use crate::authorization::AuthorizationType;
use crate::codec::{DATA_LEN, VestingConfig, VestingConfigView, VestingState, parse_vesting_state,
    spec_parse_state};
use crate::error::Error;
use crate::tx::{Cell, CellView, cells_view, count_matching_cells, find_matching_data,
    spec_count_matching, spec_find_matching_data};
use crate::vesting::{calculate_vested_amount, spec_vested};

verus! {

/// `a + b`, capped at `u64::MAX`.
pub open spec fn spec_sat_add(a: u64, b: u64) -> u64 {
    if a + b > u64::MAX {
        u64::MAX
    } else {
        (a + b) as u64
    }
}

/// `a - b`, floored at `0`.
pub open spec fn spec_sat_sub(a: u64, b: u64) -> u64 {
    if a >= b {
        (a - b) as u64
    } else {
        0
    }
}

/// The data of the first input cell under this record's configuration.
pub fn find_matching_input_data(inputs: &Vec<Cell>, script_hash: &[u8]) -> (r: Result<
    Vec<u8>,
    Error,
>)
    ensures
        match spec_find_matching_data(cells_view(inputs@), script_hash@) {
            Some(d) => r is Ok && (r->Ok_0)@ == d,
            None => r == Err::<Vec<u8>, Error>(Error::NoMatchingInputCell),
        },
{
    match find_matching_data(inputs, script_hash) {
        Some(d) => Ok(d),
        None => Err(Error::NoMatchingInputCell),
    }
}

/// The data of the first output cell under this record's configuration.
pub fn find_matching_output_data(outputs: &Vec<Cell>, script_hash: &[u8]) -> (r: Result<
    Vec<u8>,
    Error,
>)
    ensures
        match spec_find_matching_data(cells_view(outputs@), script_hash@) {
            Some(d) => r is Ok && (r->Ok_0)@ == d,
            None => r == Err::<Vec<u8>, Error>(Error::NoMatchingOutputCell),
        },
{
    match find_matching_data(outputs, script_hash) {
        Some(d) => Ok(d),
        None => Err(Error::NoMatchingOutputCell),
    }
}

/// Exactly one input cell may sit under this record's configuration.
pub fn validate_single_input_cell(inputs: &Vec<Cell>, script_hash: &[u8]) -> (r: Result<
    (),
    Error,
>)
    ensures
        r == if spec_count_matching(cells_view(inputs@), script_hash@) != 1 {
            Err::<(), Error>(Error::MultipleInputsNotAllowed)
        } else {
            Ok::<(), Error>(())
        },
{
    if count_matching_cells(inputs, script_hash) != 1 {
        return Err(Error::MultipleInputsNotAllowed);
    }
    Ok(())
}

/// The coarse transaction-structure policy: one matching input, and a
/// continuing output for creator and anonymous operations.  A beneficiary
/// may either continue or consume the record.
pub open spec fn spec_transaction_structure(
    auth_type: AuthorizationType,
    has_output: bool,
    matching_inputs: nat,
) -> Result<(), Error> {
    if matching_inputs != 1 {
        Err(Error::MultipleInputsNotAllowed)
    } else {
        match auth_type {
            AuthorizationType::Creator => {
                if !has_output {
                    Err(Error::CreatorOperationMissingOutput)
                } else {
                    Ok(())
                }
            },
            AuthorizationType::Beneficiary => Ok(()),
            AuthorizationType::Anonymous => {
                if !has_output {
                    Err(Error::AnonymousUpdateMissingOutput)
                } else {
                    Ok(())
                }
            },
        }
    }
}

/// Checks the coarse transaction structure for the operation class.
pub fn validate_transaction_structure_with_output_flag(
    auth_type: AuthorizationType,
    has_output: bool,
    inputs: &Vec<Cell>,
    script_hash: &[u8],
) -> (r: Result<(), Error>)
    ensures
        r == spec_transaction_structure(
            auth_type,
            has_output,
            spec_count_matching(cells_view(inputs@), script_hash@),
        ),
{
    if count_matching_cells(inputs, script_hash) != 1 {
        return Err(Error::MultipleInputsNotAllowed);
    }

    match auth_type {
        AuthorizationType::Creator => {
            // Creator operations always continue the record.
            if !has_output {
                return Err(Error::CreatorOperationMissingOutput);
            }
        },
        AuthorizationType::Beneficiary => {
            // A claim may continue or consume the record.
        },
        AuthorizationType::Anonymous => {
            // Anonymous watermark updates always continue the record.
            if !has_output {
                return Err(Error::AnonymousUpdateMissingOutput);
            }
        },
    }

    Ok(())
}

/// Accounting consistency across a transition: the total never changes,
/// and each party's cumulative claim moves by exactly the stated delta.
pub open spec fn spec_state_consistency(
    input_state: VestingState,
    output_state: VestingState,
    beneficiary_claimed_delta: u64,
    creator_claimed_delta: u64,
) -> Result<(), Error> {
    if output_state.total_amount != input_state.total_amount {
        Err(Error::TotalAmountChanged)
    } else if output_state.beneficiary_claimed != spec_sat_add(
        input_state.beneficiary_claimed,
        beneficiary_claimed_delta,
    ) {
        Err(Error::InvalidBeneficiaryClaimedDelta)
    } else if output_state.creator_claimed != spec_sat_add(
        input_state.creator_claimed,
        creator_claimed_delta,
    ) {
        Err(Error::InvalidCreatorClaimedDelta)
    } else {
        Ok(())
    }
}

/// Checks accounting consistency across a transition.
pub fn validate_state_consistency(
    input_state: &VestingState,
    output_state: &VestingState,
    beneficiary_claimed_delta: u64,
    creator_claimed_delta: u64,
) -> (r: Result<(), Error>)
    ensures
        r == spec_state_consistency(
            *input_state,
            *output_state,
            beneficiary_claimed_delta,
            creator_claimed_delta,
        ),
{
    if output_state.total_amount != input_state.total_amount {
        return Err(Error::TotalAmountChanged);
    }
    if output_state.beneficiary_claimed
        != input_state.beneficiary_claimed.saturating_add(beneficiary_claimed_delta) {
        return Err(Error::InvalidBeneficiaryClaimedDelta);
    }
    if output_state.creator_claimed
        != input_state.creator_claimed.saturating_add(creator_claimed_delta) {
        return Err(Error::InvalidCreatorClaimedDelta);
    }
    Ok(())
}

/// A beneficiary claim: the claimed delta must not exceed what is vested
/// and still unclaimed, and the other accounting fields must be untouched.
pub open spec fn spec_beneficiary_claim(
    config: VestingConfigView,
    input_state: VestingState,
    output_state: VestingState,
    highest_epoch: u64,
) -> Result<(), Error> {
    let vested = spec_vested(
        highest_epoch,
        config.start_epoch,
        config.end_epoch,
        config.cliff_epoch,
        input_state.total_amount,
        input_state.creator_claimed,
    ) as u64;
    let available_to_claim = spec_sat_sub(vested, input_state.beneficiary_claimed);
    let claimed_amount = spec_sat_sub(
        output_state.beneficiary_claimed,
        input_state.beneficiary_claimed,
    );
    if claimed_amount > available_to_claim {
        Err(Error::InsufficientVested)
    } else {
        spec_state_consistency(input_state, output_state, claimed_amount, 0)
    }
}

/// Validates a beneficiary claim.
pub fn validate_beneficiary_claim(
    config: &VestingConfig,
    input_state: &VestingState,
    output_state: &VestingState,
    highest_epoch: u64,
) -> (r: Result<(), Error>)
    ensures
        r == spec_beneficiary_claim(config@, *input_state, *output_state, highest_epoch),
{
    let vested_amount = calculate_vested_amount(
        highest_epoch,
        config.start_epoch,
        config.end_epoch,
        config.cliff_epoch,
        input_state.total_amount,
        input_state.creator_claimed,
    );

    let available_to_claim = vested_amount.saturating_sub(input_state.beneficiary_claimed);
    let claimed_amount = output_state.beneficiary_claimed.saturating_sub(
        input_state.beneficiary_claimed,
    );

    if claimed_amount > available_to_claim {
        return Err(Error::InsufficientVested);
    }

    validate_state_consistency(input_state, output_state, claimed_amount, 0)
}

/// A creator termination: one-shot, and all-or-nothing on the unvested
/// remainder.
pub open spec fn spec_creator_termination(
    config: VestingConfigView,
    input_state: VestingState,
    output_state: VestingState,
    highest_epoch: u64,
) -> Result<(), Error> {
    if input_state.creator_claimed > 0 {
        Err(Error::AlreadyTerminated)
    } else {
        let vested = spec_vested(
            highest_epoch,
            config.start_epoch,
            config.end_epoch,
            config.cliff_epoch,
            input_state.total_amount,
            input_state.creator_claimed,
        ) as u64;
        let unvested_amount = spec_sat_sub(input_state.total_amount, vested);
        let creator_claimed = spec_sat_sub(
            output_state.creator_claimed,
            input_state.creator_claimed,
        );
        if creator_claimed != unvested_amount {
            Err(Error::InvalidAmount)
        } else {
            spec_state_consistency(input_state, output_state, 0, creator_claimed)
        }
    }
}

/// Validates a creator termination.
pub fn validate_creator_termination(
    config: &VestingConfig,
    input_state: &VestingState,
    output_state: &VestingState,
    highest_epoch: u64,
) -> (r: Result<(), Error>)
    ensures
        r == spec_creator_termination(config@, *input_state, *output_state, highest_epoch),
{
    if input_state.creator_claimed > 0 {
        return Err(Error::AlreadyTerminated);
    }

    let vested_amount = calculate_vested_amount(
        highest_epoch,
        config.start_epoch,
        config.end_epoch,
        config.cliff_epoch,
        input_state.total_amount,
        input_state.creator_claimed,
    );

    let unvested_amount = input_state.total_amount.saturating_sub(vested_amount);
    let creator_claimed = output_state.creator_claimed.saturating_sub(
        input_state.creator_claimed,
    );

    if creator_claimed != unvested_amount {
        return Err(Error::InvalidAmount);
    }

    validate_state_consistency(input_state, output_state, 0, creator_claimed)
}

/// An anonymous update: only the watermark may change.
pub open spec fn spec_block_update_only(
    input_state: VestingState,
    output_state: VestingState,
) -> Result<(), Error> {
    if output_state.total_amount != input_state.total_amount
        || output_state.beneficiary_claimed != input_state.beneficiary_claimed
        || output_state.creator_claimed != input_state.creator_claimed {
        Err(Error::InvalidStateChange)
    } else {
        Ok(())
    }
}

/// Validates that only the watermark was updated.
pub fn validate_block_update_only(
    input_state: &VestingState,
    output_state: &VestingState,
) -> (r: Result<(), Error>)
    ensures
        r == spec_block_update_only(*input_state, *output_state),
{
    if output_state.total_amount != input_state.total_amount
        || output_state.beneficiary_claimed != input_state.beneficiary_claimed
        || output_state.creator_claimed != input_state.creator_claimed {
        return Err(Error::InvalidStateChange);
    }
    Ok(())
}

/// The output-presence policy of each operation class, judged from the
/// vested amount and the input's accounting fields.
pub open spec fn spec_output_requirements(
    auth_type: AuthorizationType,
    has_output: bool,
    vested_amount: u64,
    total_amount: u64,
    creator_claimed: u64,
    beneficiary_claimed: u64,
) -> Result<(), Error> {
    match auth_type {
        AuthorizationType::Creator => {
            if vested_amount == 0 {
                // Nothing vested: the creator terminates everything.
                if has_output {
                    Err(Error::CreatorFullTerminationHasOutput)
                } else {
                    Ok(())
                }
            } else if vested_amount < total_amount {
                // Partially vested: the remainder continues for the beneficiary.
                if !has_output {
                    Err(Error::CreatorOperationMissingOutput)
                } else {
                    Ok(())
                }
            } else {
                // Fully vested: nothing left to terminate.
                Err(Error::NothingToTerminate)
            }
        },
        AuthorizationType::Beneficiary => {
            if creator_claimed > 0 {
                // Post-termination: one final sweep of what remains.
                let remaining_amount = spec_sat_sub(total_amount, creator_claimed);
                let claimable_amount = spec_sat_sub(remaining_amount, beneficiary_claimed);
                if claimable_amount == 0 {
                    Err(Error::InsufficientVested)
                } else if has_output {
                    Err(Error::BeneficiaryFullClaimHasOutput)
                } else {
                    Ok(())
                }
            } else if vested_amount >= total_amount {
                // Fully vested: the record must be consumed.
                if has_output {
                    Err(Error::BeneficiaryFullClaimHasOutput)
                } else {
                    Ok(())
                }
            } else {
                // Partially vested: the record must continue.
                if !has_output {
                    Err(Error::BeneficiaryPartialClaimMissingOutput)
                } else {
                    Ok(())
                }
            }
        },
        AuthorizationType::Anonymous => {
            // Nothing may be consumed without authorization.
            if !has_output {
                Err(Error::AnonymousUpdateMissingOutput)
            } else {
                Ok(())
            }
        },
    }
}

/// Checks the output-presence policy for the operation class.
pub fn validate_output_requirements(
    auth_type: AuthorizationType,
    has_output: bool,
    vested_amount: u64,
    total_amount: u64,
    creator_claimed: u64,
    beneficiary_claimed: u64,
) -> (r: Result<(), Error>)
    ensures
        r == spec_output_requirements(
            auth_type,
            has_output,
            vested_amount,
            total_amount,
            creator_claimed,
            beneficiary_claimed,
        ),
{
    match auth_type {
        AuthorizationType::Creator => {
            if vested_amount == 0 {
                if has_output {
                    return Err(Error::CreatorFullTerminationHasOutput);
                }
            } else if vested_amount < total_amount {
                if !has_output {
                    return Err(Error::CreatorOperationMissingOutput);
                }
            } else {
                return Err(Error::NothingToTerminate);
            }
        },
        AuthorizationType::Beneficiary => {
            if creator_claimed > 0 {
                let remaining_amount = total_amount.saturating_sub(creator_claimed);
                let claimable_amount = remaining_amount.saturating_sub(beneficiary_claimed);
                if claimable_amount == 0 {
                    return Err(Error::InsufficientVested);
                } else if has_output {
                    return Err(Error::BeneficiaryFullClaimHasOutput);
                }
            } else if vested_amount >= total_amount {
                if has_output {
                    return Err(Error::BeneficiaryFullClaimHasOutput);
                }
            } else {
                if !has_output {
                    return Err(Error::BeneficiaryPartialClaimMissingOutput);
                }
            }
        },
        AuthorizationType::Anonymous => {
            if !has_output {
                return Err(Error::AnonymousUpdateMissingOutput);
            }
        },
    }
    Ok(())
}

/// The successor state a transition is judged against.  When a matching
/// output cell exists, its parsed state (`has_output` true); when none
/// does, the implied virtual successor of a full consumption
/// (`has_output` false): for a beneficiary, the input with everything
/// available claimed; for a creator, the input with the whole unvested
/// remainder taken back; for an anonymous caller, the input itself — the
/// output-presence policy then rejects the call.
pub open spec fn spec_load_output_state(
    auth_type: AuthorizationType,
    config: VestingConfigView,
    input_state: VestingState,
    highest_epoch: u64,
    outputs: Seq<CellView>,
    script_hash: Seq<u8>,
) -> Result<(VestingState, bool), Error> {
    match spec_find_matching_data(outputs, script_hash) {
        Some(output_data) => {
            if output_data.len() != DATA_LEN {
                if auth_type is Beneficiary {
                    Err(Error::WrongDataLength)
                } else {
                    Err(Error::OutputDataWrongLength)
                }
            } else {
                match spec_parse_state(output_data) {
                    Ok(output_state) => Ok((output_state, true)),
                    Err(e) => Err(e),
                }
            }
        },
        None => {
            let vested = spec_vested(
                highest_epoch,
                config.start_epoch,
                config.end_epoch,
                config.cliff_epoch,
                input_state.total_amount,
                input_state.creator_claimed,
            ) as u64;
            match auth_type {
                AuthorizationType::Beneficiary => {
                    let available_to_claim = spec_sat_sub(
                        vested,
                        input_state.beneficiary_claimed,
                    );
                    Ok((
                        VestingState {
                            beneficiary_claimed: spec_sat_add(
                                input_state.beneficiary_claimed,
                                available_to_claim,
                            ),
                            ..input_state
                        },
                        false,
                    ))
                },
                AuthorizationType::Creator => {
                    let unvested_amount = spec_sat_sub(input_state.total_amount, vested);
                    Ok((
                        VestingState {
                            creator_claimed: spec_sat_add(
                                input_state.creator_claimed,
                                unvested_amount,
                            ),
                            ..input_state
                        },
                        false,
                    ))
                },
                AuthorizationType::Anonymous => Ok((input_state, false)),
            }
        },
    }
}

/// Loads the successor state: the matching output cell's parsed state, or
/// the implied virtual successor of a full consumption.
pub fn load_output_state(
    auth_type: AuthorizationType,
    config: &VestingConfig,
    input_state: &VestingState,
    highest_epoch: u64,
    outputs: &Vec<Cell>,
    script_hash: &[u8],
) -> (r: Result<(VestingState, bool), Error>)
    ensures
        r == spec_load_output_state(
            auth_type,
            config@,
            *input_state,
            highest_epoch,
            cells_view(outputs@),
            script_hash@,
        ),
{
    match find_matching_data(outputs, script_hash) {
        Some(output_data) => {
            if output_data.len() != DATA_LEN {
                if matches!(auth_type, AuthorizationType::Beneficiary) {
                    return Err(Error::WrongDataLength);
                } else {
                    return Err(Error::OutputDataWrongLength);
                }
            }
            match parse_vesting_state(output_data.as_slice()) {
                Ok(output_state) => Ok((output_state, true)),
                Err(e) => Err(e),
            }
        },
        None => {
            let vested_amount = calculate_vested_amount(
                highest_epoch,
                config.start_epoch,
                config.end_epoch,
                config.cliff_epoch,
                input_state.total_amount,
                input_state.creator_claimed,
            );
            match auth_type {
                AuthorizationType::Beneficiary => {
                    let available_to_claim = vested_amount.saturating_sub(
                        input_state.beneficiary_claimed,
                    );
                    Ok((
                        VestingState {
                            beneficiary_claimed: input_state.beneficiary_claimed.saturating_add(
                                available_to_claim,
                            ),
                            ..*input_state
                        },
                        false,
                    ))
                },
                AuthorizationType::Creator => {
                    let unvested_amount = input_state.total_amount.saturating_sub(vested_amount);
                    Ok((
                        VestingState {
                            creator_claimed: input_state.creator_claimed.saturating_add(
                                unvested_amount,
                            ),
                            ..*input_state
                        },
                        false,
                    ))
                },
                AuthorizationType::Anonymous => Ok((*input_state, false)),
            }
        },
    }
}

} // verus!
