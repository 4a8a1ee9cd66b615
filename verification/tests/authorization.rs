use vesting_lock::error::Error;
use vesting_lock::tx::{Cell, HeaderInfo, Transaction};
use vesting_lock::validator::validate_transaction;

/// Byte filling the vesting lock script's own hash.
const SCRIPT: u8 = 0xAA;
/// Byte filling an unrelated lock hash that matches nobody.
const DUMMY: u8 = 0xDD;

fn hash32(v: u8) -> Vec<u8> {
    vec![v; 32]
}

fn vesting_args(creator: u8, beneficiary: u8, start: u64, end: u64, cliff: u64) -> Vec<u8> {
    let mut args = Vec::with_capacity(88);
    args.extend_from_slice(&[creator; 32]);
    args.extend_from_slice(&[beneficiary; 32]);
    args.extend_from_slice(&start.to_le_bytes());
    args.extend_from_slice(&end.to_le_bytes());
    args.extend_from_slice(&cliff.to_le_bytes());
    args
}

fn vesting_data(total: u64, beneficiary_claimed: u64, creator_claimed: u64, highest_block: u64) -> Vec<u8> {
    let mut data = Vec::with_capacity(32);
    data.extend_from_slice(&total.to_le_bytes());
    data.extend_from_slice(&beneficiary_claimed.to_le_bytes());
    data.extend_from_slice(&creator_claimed.to_le_bytes());
    data.extend_from_slice(&highest_block.to_le_bytes());
    data
}

fn cell(lock: u8, data: Vec<u8>) -> Cell {
    Cell { lock_hash: hash32(lock), data }
}

fn header(number: u64, epoch: u64) -> HeaderInfo {
    HeaderInfo { number, epoch }
}

fn run(args: Vec<u8>, inputs: Vec<Cell>, outputs: Vec<Cell>, headers: Vec<HeaderInfo>) -> Result<(), Error> {
    validate_transaction(&Transaction { script_hash: hash32(SCRIPT), args, inputs, outputs, headers })
}

fn error_code(result: &Result<(), Error>) -> Option<i8> {
    result.as_ref().err().map(|e| e.code())
}

#[test]
fn authorization_test_unauthorized_beneficiary_claim() {
    let result = run(
        vesting_args(2, 1, 100, 300, 120),
        vec![cell(SCRIPT, vesting_data(10000, 0, 0, 200)), cell(99, vec![])],
        vec![cell(SCRIPT, vesting_data(10000, 5000, 0, 201)), cell(1, vec![])],
        vec![header(201, 200)],
    );
    assert!(result.is_err(), "Should fail - unauthorized beneficiary claim, got error code: {:?}", error_code(&result));
}

#[test]
fn authorization_test_unauthorized_creator_termination() {
    let result = run(
        vesting_args(2, 1, 100, 300, 120),
        vec![cell(SCRIPT, vesting_data(10000, 2000, 0, 200)), cell(88, vec![])],
        vec![cell(SCRIPT, vesting_data(10000, 2000, 5000, 201)), cell(2, vec![])],
        vec![header(201, 200)],
    );
    assert!(result.is_err(), "Should fail - unauthorized creator termination, got error code: {:?}", error_code(&result));
}

#[test]
fn authorization_test_wrong_lock_hash_authorization() {
    let result = run(
        vesting_args(2, 1, 100, 300, 120),
        vec![cell(SCRIPT, vesting_data(10000, 0, 0, 200)), cell(77, vec![])],
        vec![cell(SCRIPT, vesting_data(10000, 5000, 0, 201)), cell(1, vec![])],
        vec![header(201, 200)],
    );
    assert!(result.is_err(), "Should fail - wrong lock hash authorization, got error code: {:?}", error_code(&result));
}
