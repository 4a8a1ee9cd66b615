//! The validation pipeline: one call, one verdict.
//!
//! `spec_validate` is the full decision function over a transaction
//! snapshot; `validate_transaction` computes it.  Checks run in a fixed
//! order and short-circuit, so each rejected snapshot maps to one
//! deterministic error code.

use vstd::prelude::*;
use crate::authorization::{AuthorizationType, determine_authorization_type, spec_authorization};
use crate::codec::{DATA_LEN, VestingConfigView, VestingState, parse_vesting_config,
    parse_vesting_state, spec_parse_config, spec_parse_state, validate_args_length};
use crate::error::Error;
use crate::temporal::{get_highest_block_from_headers, get_highest_block_from_inputs,
    get_highest_epoch_from_headers, lemma_watermark_single_match, spec_header_freshness,
    spec_highest_block_update, spec_inputs_watermark, spec_max_header_block,
    spec_max_header_epoch, validate_header_freshness, validate_headers_exist,
    validate_highest_block_update};
use crate::transition::{find_matching_input_data, load_output_state, spec_beneficiary_claim,
    spec_sat_sub,
    spec_block_update_only, spec_creator_termination, spec_load_output_state,
    spec_output_requirements, validate_beneficiary_claim, validate_block_update_only,
    validate_creator_termination, validate_output_requirements, validate_single_input_cell};
use crate::tx::{Transaction, TransactionView, spec_count_matching, spec_find_matching_data};
use crate::vesting::{calculate_vested_amount, spec_vested};

verus! {

/// The verdict on a transaction snapshot: `Ok(())` exactly when the
/// transition is a legal creator termination, beneficiary claim, or
/// anonymous freshness update; otherwise the first failing check's error.
pub open spec fn spec_validate(tx: TransactionView) -> Result<(), Error> {
    match spec_parse_config(tx.args) {
        Err(e) => Err(e),
        Ok(config) => {
            let auth_type = spec_authorization(tx.inputs, config);
            if spec_count_matching(tx.inputs, tx.script_hash) != 1 {
                Err(Error::MultipleInputsNotAllowed)
            } else {
                match spec_find_matching_data(tx.inputs, tx.script_hash) {
                    None => Err(Error::NoMatchingInputCell),
                    Some(input_data) => {
                        if input_data.len() != DATA_LEN {
                            Err(Error::WrongDataLength)
                        } else {
                            let input_state = spec_parse_state(input_data)->Ok_0;
                            match spec_inputs_watermark(tx.inputs, tx.script_hash) {
                                Err(e) => Err(e),
                                Ok(highest_block_from_inputs) => {
                                    let highest_block_from_headers = spec_max_header_block(
                                        tx.headers,
                                    );
                                    let highest_epoch = spec_max_header_epoch(tx.headers);
                                    if tx.headers.len() == 0 {
                                        Err(Error::NoHeaderDependencies)
                                    } else {
                                        match spec_header_freshness(
                                            highest_block_from_inputs,
                                            highest_block_from_headers,
                                        ) {
                                            Err(e) => Err(e),
                                            Ok(_) => spec_validate_transition(
                                                tx,
                                                config,
                                                auth_type,
                                                input_state,
                                                highest_block_from_headers,
                                                highest_epoch,
                                            ),
                                        }
                                    }
                                },
                            }
                        }
                    },
                }
            }
        },
    }
}

/// The tail of the pipeline, once the snapshot's structure and freshness
/// stand: load the successor state, check its watermark, the
/// output-presence policy, and the operation class's accounting.
pub open spec fn spec_validate_transition(
    tx: TransactionView,
    config: VestingConfigView,
    auth_type: AuthorizationType,
    input_state: VestingState,
    highest_block_from_headers: u64,
    highest_epoch: u64,
) -> Result<(), Error> {
    let vested_amount = spec_vested(
        highest_epoch,
        config.start_epoch,
        config.end_epoch,
        config.cliff_epoch,
        input_state.total_amount,
        input_state.creator_claimed,
    ) as u64;
    match spec_load_output_state(
        auth_type,
        config,
        input_state,
        highest_epoch,
        tx.outputs,
        tx.script_hash,
    ) {
        Err(e) => Err(e),
        Ok((output_state, has_output)) => {
            let block_check = if has_output {
                spec_highest_block_update(input_state, output_state, highest_block_from_headers)
            } else {
                Ok(())
            };
            match block_check {
                Err(e) => Err(e),
                Ok(_) => {
                    match spec_output_requirements(
                        auth_type,
                        has_output,
                        vested_amount,
                        input_state.total_amount,
                        input_state.creator_claimed,
                        input_state.beneficiary_claimed,
                    ) {
                        Err(e) => Err(e),
                        Ok(_) => match auth_type {
                            AuthorizationType::Creator => spec_creator_termination(
                                config,
                                input_state,
                                output_state,
                                highest_epoch,
                            ),
                            AuthorizationType::Beneficiary => spec_beneficiary_claim(
                                config,
                                input_state,
                                output_state,
                                highest_epoch,
                            ),
                            AuthorizationType::Anonymous => spec_block_update_only(
                                input_state,
                                output_state,
                            ),
                        },
                    }
                },
            }
        },
    }
}

/// Every accepted transition onto a real successor keeps the accounting
/// invariants: `total_amount` is constant, `beneficiary_claimed` and
/// `highest_block_seen` never decrease, and `creator_claimed` moves only
/// once, from zero to exactly the unvested remainder at that instant.
pub proof fn lemma_accepted_transition_invariants(
    tx: TransactionView,
    config: VestingConfigView,
    input_state: VestingState,
    output_state: VestingState,
)
    requires
        spec_parse_config(tx.args) == Ok::<VestingConfigView, Error>(config),
        spec_find_matching_data(tx.inputs, tx.script_hash) is Some,
        spec_parse_state(spec_find_matching_data(tx.inputs, tx.script_hash)->Some_0)
            == Ok::<VestingState, Error>(input_state),
        spec_find_matching_data(tx.outputs, tx.script_hash) is Some,
        spec_parse_state(spec_find_matching_data(tx.outputs, tx.script_hash)->Some_0)
            == Ok::<VestingState, Error>(output_state),
        spec_validate(tx) == Ok::<(), Error>(()),
    ensures
        output_state.total_amount == input_state.total_amount,
        output_state.beneficiary_claimed >= input_state.beneficiary_claimed,
        output_state.highest_block_seen >= input_state.highest_block_seen,
        output_state.creator_claimed == input_state.creator_claimed || (
            input_state.creator_claimed == 0 && output_state.creator_claimed
                == spec_sat_sub(
                input_state.total_amount,
                spec_vested(
                    spec_max_header_epoch(tx.headers),
                    config.start_epoch,
                    config.end_epoch,
                    config.cliff_epoch,
                    input_state.total_amount,
                    0,
                ) as u64,
            )
        ),
{
}

/// No-op safety, accepting half: an anonymous update that changes only
/// `highest_block_seen`, strictly increasing and equal to the freshest
/// header's block number, is always accepted.
pub proof fn lemma_anonymous_update_accepted(
    tx: TransactionView,
    config: VestingConfigView,
    input_state: VestingState,
    output_state: VestingState,
)
    requires
        spec_parse_config(tx.args) == Ok::<VestingConfigView, Error>(config),
        spec_authorization(tx.inputs, config) == AuthorizationType::Anonymous,
        spec_count_matching(tx.inputs, tx.script_hash) == 1,
        spec_find_matching_data(tx.inputs, tx.script_hash) is Some,
        spec_find_matching_data(tx.inputs, tx.script_hash)->Some_0.len() == DATA_LEN,
        spec_parse_state(spec_find_matching_data(tx.inputs, tx.script_hash)->Some_0)
            == Ok::<VestingState, Error>(input_state),
        tx.headers.len() > 0,
        spec_find_matching_data(tx.outputs, tx.script_hash) is Some,
        spec_find_matching_data(tx.outputs, tx.script_hash)->Some_0.len() == DATA_LEN,
        spec_parse_state(spec_find_matching_data(tx.outputs, tx.script_hash)->Some_0)
            == Ok::<VestingState, Error>(output_state),
        output_state.total_amount == input_state.total_amount,
        output_state.beneficiary_claimed == input_state.beneficiary_claimed,
        output_state.creator_claimed == input_state.creator_claimed,
        output_state.highest_block_seen == spec_max_header_block(tx.headers),
        output_state.highest_block_seen > input_state.highest_block_seen,
    ensures
        spec_validate(tx) == Ok::<(), Error>(()),
{
    lemma_watermark_single_match(tx.inputs, tx.script_hash);
}

/// No-op safety, rejecting half: an anonymous update whose successor
/// carries a correct watermark but changes any of the three accounting
/// fields is always rejected with the state-change error.
pub proof fn lemma_anonymous_update_state_change_rejected(
    tx: TransactionView,
    config: VestingConfigView,
    input_state: VestingState,
    output_state: VestingState,
)
    requires
        spec_parse_config(tx.args) == Ok::<VestingConfigView, Error>(config),
        spec_authorization(tx.inputs, config) == AuthorizationType::Anonymous,
        spec_count_matching(tx.inputs, tx.script_hash) == 1,
        spec_find_matching_data(tx.inputs, tx.script_hash) is Some,
        spec_find_matching_data(tx.inputs, tx.script_hash)->Some_0.len() == DATA_LEN,
        spec_parse_state(spec_find_matching_data(tx.inputs, tx.script_hash)->Some_0)
            == Ok::<VestingState, Error>(input_state),
        tx.headers.len() > 0,
        spec_find_matching_data(tx.outputs, tx.script_hash) is Some,
        spec_find_matching_data(tx.outputs, tx.script_hash)->Some_0.len() == DATA_LEN,
        spec_parse_state(spec_find_matching_data(tx.outputs, tx.script_hash)->Some_0)
            == Ok::<VestingState, Error>(output_state),
        output_state.total_amount != input_state.total_amount
            || output_state.beneficiary_claimed != input_state.beneficiary_claimed
            || output_state.creator_claimed != input_state.creator_claimed,
        output_state.highest_block_seen == spec_max_header_block(tx.headers),
        output_state.highest_block_seen > input_state.highest_block_seen,
    ensures
        spec_validate(tx) == Err::<(), Error>(Error::InvalidStateChange),
{
    lemma_watermark_single_match(tx.inputs, tx.script_hash);
}

/// Judges one transaction snapshot.
pub fn validate_transaction(tx: &Transaction) -> (r: Result<(), Error>)
    ensures
        r == spec_validate(tx@),
{
    validate_args_length(tx.args.as_slice())?;

    let config = match parse_vesting_config(tx.args.as_slice()) {
        Ok(config) => config,
        Err(e) => {
            return Err(e);
        },
    };

    let auth_type = determine_authorization_type(&tx.inputs, &config);

    validate_single_input_cell(&tx.inputs, tx.script_hash.as_slice())?;

    let input_data = find_matching_input_data(&tx.inputs, tx.script_hash.as_slice())?;
    if input_data.len() != DATA_LEN {
        return Err(Error::WrongDataLength);
    }
    let input_state = match parse_vesting_state(input_data.as_slice()) {
        Ok(state) => state,
        Err(e) => {
            return Err(e);
        },
    };

    let highest_block_from_inputs = get_highest_block_from_inputs(
        &tx.inputs,
        tx.script_hash.as_slice(),
    )?;
    let highest_block_from_headers = get_highest_block_from_headers(&tx.headers);
    let highest_epoch = get_highest_epoch_from_headers(&tx.headers);

    validate_headers_exist(&tx.headers)?;
    validate_header_freshness(highest_block_from_inputs, highest_block_from_headers)?;

    let vested_amount = calculate_vested_amount(
        highest_epoch,
        config.start_epoch,
        config.end_epoch,
        config.cliff_epoch,
        input_state.total_amount,
        input_state.creator_claimed,
    );

    let (output_state, has_output) = load_output_state(
        auth_type,
        &config,
        &input_state,
        highest_epoch,
        &tx.outputs,
        tx.script_hash.as_slice(),
    )?;

    if has_output {
        validate_highest_block_update(&input_state, &output_state, highest_block_from_headers)?;
    }

    validate_output_requirements(
        auth_type,
        has_output,
        vested_amount,
        input_state.total_amount,
        input_state.creator_claimed,
        input_state.beneficiary_claimed,
    )?;

    match auth_type {
        AuthorizationType::Creator => {
            validate_creator_termination(&config, &input_state, &output_state, highest_epoch)?;
        },
        AuthorizationType::Beneficiary => {
            validate_beneficiary_claim(&config, &input_state, &output_state, highest_epoch)?;
        },
        AuthorizationType::Anonymous => {
            validate_block_update_only(&input_state, &output_state)?;
        },
    }

    Ok(())
}

} // verus!
