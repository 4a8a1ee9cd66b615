use vesting_lock::error::Error;
use vesting_lock::tx::{Cell, HeaderInfo, Transaction};
use vesting_lock::validator::validate_transaction;

/// Byte filling the vesting lock script's own hash.
const SCRIPT: u8 = 0xAA;
/// Byte filling an unrelated lock hash that matches nobody.
const DUMMY: u8 = 0xDD;

fn hash32(v: u8) -> Vec<u8> {
    vec![v; 32]
}

fn vesting_args(creator: u8, beneficiary: u8, start: u64, end: u64, cliff: u64) -> Vec<u8> {
    let mut args = Vec::with_capacity(88);
    args.extend_from_slice(&[creator; 32]);
    args.extend_from_slice(&[beneficiary; 32]);
    args.extend_from_slice(&start.to_le_bytes());
    args.extend_from_slice(&end.to_le_bytes());
    args.extend_from_slice(&cliff.to_le_bytes());
    args
}

fn vesting_data(total: u64, beneficiary_claimed: u64, creator_claimed: u64, highest_block: u64) -> Vec<u8> {
    let mut data = Vec::with_capacity(32);
    data.extend_from_slice(&total.to_le_bytes());
    data.extend_from_slice(&beneficiary_claimed.to_le_bytes());
    data.extend_from_slice(&creator_claimed.to_le_bytes());
    data.extend_from_slice(&highest_block.to_le_bytes());
    data
}

fn cell(lock: u8, data: Vec<u8>) -> Cell {
    Cell { lock_hash: hash32(lock), data }
}

fn header(number: u64, epoch: u64) -> HeaderInfo {
    HeaderInfo { number, epoch }
}

fn run(args: Vec<u8>, inputs: Vec<Cell>, outputs: Vec<Cell>, headers: Vec<HeaderInfo>) -> Result<(), Error> {
    validate_transaction(&Transaction { script_hash: hash32(SCRIPT), args, inputs, outputs, headers })
}

fn error_code(result: &Result<(), Error>) -> Option<i8> {
    result.as_ref().err().map(|e| e.code())
}

#[test]
fn security_test_stale_header_attack_prevention() {
    let result = run(
        vesting_args(1, 2, 100, 300, 120),
        vec![cell(SCRIPT, vesting_data(10000, 0, 0, 250))],
        vec![cell(DUMMY, vec![]), cell(SCRIPT, vesting_data(10000, 5000, 0, 200))],
        vec![],
    );
    assert!(result.is_err(), "Should fail - stale header attack (decreasing highest_block_seen), got error code: {:?}", error_code(&result));
}

#[test]
fn security_test_highest_block_seen_monotonic_increase() {
    let result = run(
        vesting_args(2, 1, 100, 300, 120),
        vec![cell(SCRIPT, vesting_data(10000, 0, 0, 200)), cell(1, vec![])],
        vec![cell(1, vec![]), cell(SCRIPT, vesting_data(10000, 5000, 0, 201))],
        vec![header(201, 200)],
    );
    assert!(result.is_ok(), "Should succeed - monotonic increase of highest_block_seen, got error code: {:?}", error_code(&result));
}

#[test]
fn security_test_highest_block_seen_cannot_decrease() {
    let result = run(
        vesting_args(1, 2, 100, 300, 120),
        vec![cell(SCRIPT, vesting_data(10000, 0, 0, 300))],
        vec![cell(SCRIPT, vesting_data(10000, 0, 0, 250))],
        vec![],
    );
    assert!(result.is_err(), "Should fail - highest_block_seen cannot decrease, got error code: {:?}", error_code(&result));
}

#[test]
fn security_test_anyone_can_update_highest_block() {
    let result = run(
        vesting_args(1, 2, 100, 300, 120),
        vec![cell(SCRIPT, vesting_data(10000, 0, 0, 200))],
        vec![cell(SCRIPT, vesting_data(10000, 0, 0, 350))],
        vec![header(350, 350)],
    );
    assert!(result.is_ok(), "Should succeed - anyone can update highest_block_seen, got error code: {:?}", error_code(&result));
}

#[test]
fn security_test_stale_header_rejection() {
    let result = run(
        vesting_args(1, 2, 100, 300, 120),
        vec![cell(SCRIPT, vesting_data(10000, 0, 0, 200))],
        vec![cell(SCRIPT, vesting_data(10000, 0, 0, 150))],
        vec![header(150, 150)],
    );
    assert!(result.is_err(), "Should fail - stale header rejection");
    assert_eq!(error_code(&result), Some(24));
}

#[test]
fn security_test_mismatched_output_block_number() {
    let result = run(
        vesting_args(1, 2, 100, 300, 120),
        vec![cell(SCRIPT, vesting_data(10000, 0, 0, 200))],
        vec![cell(SCRIPT, vesting_data(10000, 0, 0, 400))],
        vec![header(350, 350)],
    );
    assert!(result.is_err(), "Should fail - mismatched output block number");
    assert_eq!(error_code(&result), Some(27));
}

#[test]
fn security_test_invalid_creator_delta() {
    let result = run(
        vesting_args(2, 1, 100, 300, 120),
        vec![cell(SCRIPT, vesting_data(10000, 0, 0, 200)), cell(2, vec![])],
        vec![cell(SCRIPT, vesting_data(10000, 0, 4500, 201))],
        vec![header(201, 200)],
    );
    assert!(result.is_err(), "Should fail - invalid creator claimed delta");
    if let Some(code) = error_code(&result) {
        assert_eq!(code, 20, "Expected error code 20 (InvalidAmount), got {}", code);
    }
}

#[test]
fn test_anonymous_update_fully_distributed_cell() {
    let result = run(
        vesting_args(1, 2, 100, 300, 120),
        vec![cell(SCRIPT, vesting_data(2000, 1200, 800, 300))],
        vec![cell(SCRIPT, vesting_data(2000, 1200, 800, 351))],
        vec![header(351, 350)],
    );
    assert!(result.is_ok(), "Should succeed - anonymous update when fully distributed, got error code: {:?}", error_code(&result));
}

#[test]
fn test_anonymous_update_post_termination() {
    let result = run(
        vesting_args(1, 2, 100, 300, 120),
        vec![cell(SCRIPT, vesting_data(10000, 2000, 4000, 200))],
        vec![cell(SCRIPT, vesting_data(10000, 2000, 4000, 251))],
        vec![header(251, 250)],
    );
    assert!(result.is_ok(), "Should succeed - anonymous update post-termination, got error code: {:?}", error_code(&result));
}

#[test]
fn test_anonymous_update_fully_vested_unclaimed() {
    let result = run(
        vesting_args(1, 2, 100, 200, 120),
        vec![cell(SCRIPT, vesting_data(10000, 0, 0, 200))],
        vec![cell(SCRIPT, vesting_data(10000, 0, 0, 251))],
        vec![header(251, 250)],
    );
    assert!(result.is_ok(), "Should succeed - anonymous update on fully vested unclaimed cell, got error code: {:?}", error_code(&result));
}
