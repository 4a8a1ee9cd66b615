//! Codecs for the record's fixed byte layouts.
//!
//! The configuration block is 88 bytes: two 32-byte lock identifiers
//! followed by the `start`, `end` and `cliff` epochs as little-endian
//! `u64`s.  The accounting state block is 32 bytes: four little-endian
//! `u64` fields.  Both parses are pure; the configuration parse also
//! enforces the schedule-ordering invariant.

use vstd::prelude::*;
use vstd::slice::{slice_subrange, slice_to_vec};
use crate::bytes::{le64_at, push_u64_le, read_u64_le};
use crate::error::Error;

verus! {

/// Byte length of the configuration block.
pub const ARGS_LEN: usize = 88;

/// Byte length of the accounting state block.
pub const DATA_LEN: usize = 32;

/// The immutable vesting configuration, derived once per validation call
/// from the record's fixed parameters.
#[derive(Debug, Clone)]
pub struct VestingConfig {
    pub creator_lock_hash: Vec<u8>,
    pub beneficiary_lock_hash: Vec<u8>,
    pub start_epoch: u64,
    pub end_epoch: u64,
    pub cliff_epoch: u64,
}

/// The mathematical shape of a configuration.
pub ghost struct VestingConfigView {
    pub creator_lock_hash: Seq<u8>,
    pub beneficiary_lock_hash: Seq<u8>,
    pub start_epoch: u64,
    pub end_epoch: u64,
    pub cliff_epoch: u64,
}

impl View for VestingConfig {
    type V = VestingConfigView;

    open spec fn view(&self) -> VestingConfigView {
        VestingConfigView {
            creator_lock_hash: self.creator_lock_hash@,
            beneficiary_lock_hash: self.beneficiary_lock_hash@,
            start_epoch: self.start_epoch,
            end_epoch: self.end_epoch,
            cliff_epoch: self.cliff_epoch,
        }
    }
}

/// The schedule-ordering invariant: `start < end` and `start <= cliff <= end`.
pub open spec fn spec_schedule_ok(start_epoch: u64, end_epoch: u64, cliff_epoch: u64) -> bool {
    start_epoch < end_epoch && start_epoch <= cliff_epoch && cliff_epoch <= end_epoch
}

impl VestingConfigView {
    /// A well-formed configuration: 32-byte identifiers and an ordered schedule.
    pub open spec fn wf(self) -> bool {
        &&& self.creator_lock_hash.len() == 32
        &&& self.beneficiary_lock_hash.len() == 32
        &&& spec_schedule_ok(self.start_epoch, self.end_epoch, self.cliff_epoch)
    }
}

/// The mutable accounting snapshot of one record instance.
#[derive(Debug, Clone, Copy, PartialEq, Eq, Structural)]
pub struct VestingState {
    pub total_amount: u64,
    pub beneficiary_claimed: u64,
    pub creator_claimed: u64,
    pub highest_block_seen: u64,
}

/// What parsing a configuration block yields: the configuration when the
/// block is 88 bytes and its schedule is ordered, else the specific error.
pub open spec fn spec_parse_config(s: Seq<u8>) -> Result<VestingConfigView, Error> {
    if s.len() != ARGS_LEN {
        Err(Error::InvalidArgs)
    } else {
        let start_epoch = le64_at(s, 64) as u64;
        let end_epoch = le64_at(s, 72) as u64;
        let cliff_epoch = le64_at(s, 80) as u64;
        if !spec_schedule_ok(start_epoch, end_epoch, cliff_epoch) {
            Err(Error::InvalidEpoch)
        } else {
            Ok(VestingConfigView {
                creator_lock_hash: s.subrange(0, 32),
                beneficiary_lock_hash: s.subrange(32, 64),
                start_epoch,
                end_epoch,
                cliff_epoch,
            })
        }
    }
}

/// What parsing a state block yields: the four fields when the block is
/// 32 bytes, else a length error.
pub open spec fn spec_parse_state(s: Seq<u8>) -> Result<VestingState, Error> {
    if s.len() != DATA_LEN {
        Err(Error::WrongDataLength)
    } else {
        Ok(VestingState {
            total_amount: le64_at(s, 0) as u64,
            beneficiary_claimed: le64_at(s, 8) as u64,
            creator_claimed: le64_at(s, 16) as u64,
            highest_block_seen: le64_at(s, 24) as u64,
        })
    }
}

/// Rejects a configuration block of the wrong length.
pub fn validate_args_length(args: &[u8]) -> (r: Result<(), Error>)
    ensures
        r == if args@.len() == ARGS_LEN { Ok::<(), Error>(()) } else { Err(Error::InvalidArgs) },
{
    if args.len() != ARGS_LEN {
        return Err(Error::InvalidArgs);
    }
    Ok(())
}

/// Parses and validates the vesting configuration from the record's
/// fixed parameters.
pub fn parse_vesting_config(args: &[u8]) -> (r: Result<VestingConfig, Error>)
    ensures
        r is Ok ==> spec_parse_config(args@) == Ok::<VestingConfigView, Error>((r->Ok_0)@),
        r is Err ==> spec_parse_config(args@) == Err::<VestingConfigView, Error>(r->Err_0),
        r is Ok ==> (r->Ok_0)@.wf(),
{
    if args.len() != ARGS_LEN {
        return Err(Error::InvalidArgs);
    }

    let creator_lock_hash = slice_to_vec(slice_subrange(args, 0, 32));
    let beneficiary_lock_hash = slice_to_vec(slice_subrange(args, 32, 64));
    let start_epoch = read_u64_le(args, 64);
    let end_epoch = read_u64_le(args, 72);
    let cliff_epoch = read_u64_le(args, 80);

    if start_epoch >= end_epoch || cliff_epoch < start_epoch || cliff_epoch > end_epoch {
        return Err(Error::InvalidEpoch);
    }

    Ok(VestingConfig {
        creator_lock_hash,
        beneficiary_lock_hash,
        start_epoch,
        end_epoch,
        cliff_epoch,
    })
}

/// Parses the accounting state from a record's data block.
pub fn parse_vesting_state(data: &[u8]) -> (r: Result<VestingState, Error>)
    ensures
        r == spec_parse_state(data@),
{
    if data.len() != DATA_LEN {
        return Err(Error::WrongDataLength);
    }

    Ok(VestingState {
        total_amount: read_u64_le(data, 0),
        beneficiary_claimed: read_u64_le(data, 8),
        creator_claimed: read_u64_le(data, 16),
        highest_block_seen: read_u64_le(data, 24),
    })
}

/// Encodes an accounting state as its 32-byte block.  Encoding followed by
/// parsing is the identity on states.
pub fn encode_vesting_state(state: &VestingState) -> (r: Vec<u8>)
    ensures
        r@.len() == DATA_LEN,
        spec_parse_state(r@) == Ok::<VestingState, Error>(*state),
{
    let mut out: Vec<u8> = Vec::new();
    push_u64_le(&mut out, state.total_amount);
    push_u64_le(&mut out, state.beneficiary_claimed);
    push_u64_le(&mut out, state.creator_claimed);
    push_u64_le(&mut out, state.highest_block_seen);
    out
}

/// Encodes a well-formed configuration as its 88-byte block.  Encoding
/// followed by parsing is the identity on well-formed configurations.
pub fn encode_vesting_config(config: &VestingConfig) -> (r: Vec<u8>)
    requires
        config@.wf(),
    ensures
        r@.len() == ARGS_LEN,
        spec_parse_config(r@) == Ok::<VestingConfigView, Error>(config@),
{
    let mut out: Vec<u8> = Vec::new();
    crate::bytes::push_bytes(&mut out, config.creator_lock_hash.as_slice());
    crate::bytes::push_bytes(&mut out, config.beneficiary_lock_hash.as_slice());
    push_u64_le(&mut out, config.start_epoch);
    push_u64_le(&mut out, config.end_epoch);
    push_u64_le(&mut out, config.cliff_epoch);
    proof {
        assert(out@.subrange(0, 32) =~= config.creator_lock_hash@);
        assert(out@.subrange(32, 64) =~= config.beneficiary_lock_hash@);
    }
    out
}

} // verus!
