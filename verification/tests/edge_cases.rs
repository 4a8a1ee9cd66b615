use vesting_lock::error::Error;
use vesting_lock::tx::{Cell, HeaderInfo, Transaction};
use vesting_lock::validator::validate_transaction;

/// Byte filling the vesting lock script's own hash.
const SCRIPT: u8 = 0xAA;
/// Byte filling an unrelated lock hash that matches nobody.
const DUMMY: u8 = 0xDD;

fn hash32(v: u8) -> Vec<u8> {
    vec![v; 32]
}

fn vesting_args(creator: u8, beneficiary: u8, start: u64, end: u64, cliff: u64) -> Vec<u8> {
    let mut args = Vec::with_capacity(88);
    args.extend_from_slice(&[creator; 32]);
    args.extend_from_slice(&[beneficiary; 32]);
    args.extend_from_slice(&start.to_le_bytes());
    args.extend_from_slice(&end.to_le_bytes());
    args.extend_from_slice(&cliff.to_le_bytes());
    args
}

fn vesting_data(total: u64, beneficiary_claimed: u64, creator_claimed: u64, highest_block: u64) -> Vec<u8> {
    let mut data = Vec::with_capacity(32);
    data.extend_from_slice(&total.to_le_bytes());
    data.extend_from_slice(&beneficiary_claimed.to_le_bytes());
    data.extend_from_slice(&creator_claimed.to_le_bytes());
    data.extend_from_slice(&highest_block.to_le_bytes());
    data
}

fn cell(lock: u8, data: Vec<u8>) -> Cell {
    Cell { lock_hash: hash32(lock), data }
}

fn header(number: u64, epoch: u64) -> HeaderInfo {
    HeaderInfo { number, epoch }
}

fn run(args: Vec<u8>, inputs: Vec<Cell>, outputs: Vec<Cell>, headers: Vec<HeaderInfo>) -> Result<(), Error> {
    validate_transaction(&Transaction { script_hash: hash32(SCRIPT), args, inputs, outputs, headers })
}

fn error_code(result: &Result<(), Error>) -> Option<i8> {
    result.as_ref().err().map(|e| e.code())
}

#[test]
fn edge_cases_test_zero_vesting_amount() {
    let result = run(
        vesting_args(1, 2, 100, 300, 120),
        vec![cell(SCRIPT, vesting_data(0, 0, 0, 200))],
        vec![cell(SCRIPT, vesting_data(0, 0, 0, 250))],
        vec![header(250, 250)],
    );
    assert!(result.is_ok(), "Should succeed - zero vesting amount is valid for security updates, got error code: {:?}", error_code(&result));
}

#[test]
fn edge_cases_test_cliff_equals_end_epoch() {
    let result = run(
        vesting_args(2, 1, 100, 200, 200),
        vec![cell(SCRIPT, vesting_data(10000, 0, 0, 200)), cell(1, vec![])],
        vec![cell(1, vec![])],
        vec![header(201, 200)],
    );
    assert!(result.is_ok(), "Should succeed - cliff=end epoch allows full vesting, got error code: {:?}", error_code(&result));
}

#[test]
fn edge_cases_test_overflow_protection_vesting_calculation() {
    let result = run(
        vesting_args(1, 2, 0, u64::MAX, 1),
        vec![cell(SCRIPT, vesting_data(10000, 0, 0, u64::MAX / 2))],
        vec![cell(SCRIPT, vesting_data(10000, 0, 0, u64::MAX - 1))],
        vec![header(u64::MAX - 1, u64::MAX / 2)],
    );
    assert!(result.is_ok(), "Should succeed - overflow protection in vesting calculation, got error code: {:?}", error_code(&result));
}

#[test]
fn edge_cases_test_minimum_capacity_requirements() {
    let result = run(
        vesting_args(1, 2, 100, 300, 120),
        vec![cell(SCRIPT, vesting_data(100, 0, 0, 200))],
        vec![cell(SCRIPT, vesting_data(100, 0, 0, 250))],
        vec![],
    );
    // Documents the behavior with minimum capacity; the verdict is not asserted.
    let _ = result;
}

#[test]
fn edge_cases_test_cliff_equals_start_epoch() {
    let result = run(
        vesting_args(2, 1, 100, 300, 100),
        vec![cell(SCRIPT, vesting_data(10000, 0, 0, 150)), cell(1, vec![])],
        vec![cell(SCRIPT, vesting_data(10000, 2500, 0, 151))],
        vec![header(151, 150)],
    );
    assert!(result.is_ok(), "Should succeed - cliff=start allows immediate vesting");
}

#[test]
fn test_transition_partial_to_full_vesting() {
    let result = run(
        vesting_args(2, 1, 100, 200, 120),
        vec![cell(SCRIPT, vesting_data(10000, 3000, 0, 199)), cell(1, vec![])],
        vec![],
        vec![header(201, 200)],
    );
    assert!(result.is_ok(), "Should succeed - transition from partial to full vesting, got error code: {:?}", error_code(&result));
}

#[test]
fn test_vesting_calculation_overflow_protection() {
    let result = run(
        vesting_args(2, 1, u64::MAX - 1000, u64::MAX - 100, u64::MAX - 500),
        vec![cell(SCRIPT, vesting_data(u64::MAX / 2, 0, 0, u64::MAX - 400))],
        vec![cell(SCRIPT, vesting_data(u64::MAX / 2, 0, 0, u64::MAX - 200))],
        vec![header(u64::MAX - 200, u64::MAX - 300)],
    );
    assert!(result.is_ok(), "Should succeed - overflow protection in complex vesting calculation, got error code: {:?}", error_code(&result));
}

#[test]
fn test_maximum_values_edge_cases() {
    let result = run(
        vesting_args(1, 2, 0, u64::MAX, 1),
        vec![cell(SCRIPT, vesting_data(u64::MAX, 0, 0, u64::MAX - 1))],
        vec![cell(SCRIPT, vesting_data(u64::MAX, 0, 0, u64::MAX))],
        vec![header(u64::MAX, u64::MAX)],
    );
    assert!(result.is_ok(), "Should succeed - maximum values edge cases, got error code: {:?}", error_code(&result));
}

#[test]
fn test_cliff_equals_start_immediate_vesting() {
    let result = run(
        vesting_args(2, 1, 50, 250, 50),
        vec![cell(SCRIPT, vesting_data(8000, 0, 0, 50)), cell(2, vec![])],
        vec![cell(SCRIPT, vesting_data(8000, 0, 7960, 51))],
        vec![header(51, 51)],
    );
    assert!(result.is_ok(), "Should succeed - cliff=start allows immediate termination, got error code: {:?}", error_code(&result));
}
