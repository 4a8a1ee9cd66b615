//! Freshness and epoch selection from headers and input watermarks.
//!
//! Header dependencies are the validator's only time source.  Their
//! highest block number must be strictly fresher than any watermark
//! already recorded by a matching input, and a successor state must carry
//! exactly that highest block number.

use vstd::prelude::*;
use crate::bytes::{bytes_eq, le64_at, read_u64_le};
use crate::codec::{DATA_LEN, VestingState};
use crate::error::Error;
use crate::tx::{Cell, CellView, HeaderInfo, cells_view, spec_count_matching,
    spec_find_matching_data};

verus! {

/// The highest block number among the headers, `0` when there are none.
pub open spec fn spec_max_header_block(headers: Seq<HeaderInfo>) -> u64
    decreases headers.len(),
{
    if headers.len() == 0 {
        0
    } else {
        let m = spec_max_header_block(headers.drop_last());
        if headers.last().number > m {
            headers.last().number
        } else {
            m
        }
    }
}

/// The highest epoch among the headers, `0` when there are none.
pub open spec fn spec_max_header_epoch(headers: Seq<HeaderInfo>) -> u64
    decreases headers.len(),
{
    if headers.len() == 0 {
        0
    } else {
        let m = spec_max_header_epoch(headers.drop_last());
        if headers.last().epoch > m {
            headers.last().epoch
        } else {
            m
        }
    }
}

/// The highest watermark among the matching input cells, `0` when none
/// match; a matching cell whose data block is not 32 bytes is an error.
pub open spec fn spec_inputs_watermark(cells: Seq<CellView>, hash: Seq<u8>) -> Result<u64, Error>
    decreases cells.len(),
{
    if cells.len() == 0 {
        Ok(0)
    } else {
        match spec_inputs_watermark(cells.drop_last(), hash) {
            Err(e) => Err(e),
            Ok(m) => {
                let c = cells.last();
                if c.lock_hash == hash {
                    if c.data.len() != DATA_LEN {
                        Err(Error::InputDataWrongLength)
                    } else {
                        let b = le64_at(c.data, 24) as u64;
                        if b > m {
                            Ok(b)
                        } else {
                            Ok(m)
                        }
                    }
                } else {
                    Ok(m)
                }
            },
        }
    }
}

/// Cells without a matching member scan to nothing: no data is found and
/// the watermark is zero.
pub proof fn lemma_no_match_scan(cells: Seq<CellView>, hash: Seq<u8>)
    requires
        spec_count_matching(cells, hash) == 0,
    ensures
        spec_find_matching_data(cells, hash) is None,
        spec_inputs_watermark(cells, hash) == Ok::<u64, Error>(0),
    decreases cells.len(),
{
    if cells.len() > 0 {
        lemma_no_match_scan(cells.drop_last(), hash);
    }
}

/// With exactly one matching cell, whose data block is 32 bytes, the
/// watermark is exactly that cell's `highest_block_seen` field.
pub proof fn lemma_watermark_single_match(cells: Seq<CellView>, hash: Seq<u8>)
    requires
        spec_count_matching(cells, hash) == 1,
        spec_find_matching_data(cells, hash) is Some,
        spec_find_matching_data(cells, hash)->Some_0.len() == DATA_LEN,
    ensures
        spec_inputs_watermark(cells, hash) == Ok::<u64, Error>(
            le64_at(spec_find_matching_data(cells, hash)->Some_0, 24) as u64,
        ),
    decreases cells.len(),
{
    let dl = cells.drop_last();
    if cells.last().lock_hash == hash {
        lemma_no_match_scan(dl, hash);
    } else {
        lemma_watermark_single_match(dl, hash);
    }
}

/// Once a prefix of the cells yields an error, the whole sequence yields
/// that same error.
proof fn lemma_watermark_prefix_err(cells: Seq<CellView>, hash: Seq<u8>, i: int)
    requires
        0 <= i <= cells.len(),
        spec_inputs_watermark(cells.subrange(0, i), hash) is Err,
    ensures
        spec_inputs_watermark(cells, hash) == spec_inputs_watermark(cells.subrange(0, i), hash),
    decreases cells.len() - i,
{
    if i == cells.len() {
        assert(cells.subrange(0, i) =~= cells);
    } else {
        assert(cells.subrange(0, i + 1).drop_last() =~= cells.subrange(0, i));
        lemma_watermark_prefix_err(cells, hash, i + 1);
    }
}

/// Finds the highest watermark recorded by the matching input cells.
pub fn get_highest_block_from_inputs(inputs: &Vec<Cell>, script_hash: &[u8]) -> (r: Result<
    u64,
    Error,
>)
    ensures
        r == spec_inputs_watermark(cells_view(inputs@), script_hash@),
{
    let ghost cv = cells_view(inputs@);
    let mut highest_block: u64 = 0;
    let mut i: usize = 0;
    while i < inputs.len()
        invariant
            cv == cells_view(inputs@),
            0 <= i <= inputs@.len(),
            cv.len() == inputs@.len(),
            spec_inputs_watermark(cv.subrange(0, i as int), script_hash@)
                == Ok::<u64, Error>(highest_block),
        decreases inputs@.len() - i,
    {
        proof {
            assert(cv.subrange(0, i + 1).drop_last() =~= cv.subrange(0, i as int));
            assert(cv.subrange(0, i + 1).last() == cv[i as int]);
        }
        if bytes_eq(inputs[i].lock_hash.as_slice(), script_hash) {
            if inputs[i].data.len() != DATA_LEN {
                proof {
                    lemma_watermark_prefix_err(cv, script_hash@, i + 1);
                }
                return Err(Error::InputDataWrongLength);
            }
            let b = read_u64_le(inputs[i].data.as_slice(), 24);
            if b > highest_block {
                highest_block = b;
            }
        }
        i = i + 1;
    }
    proof {
        assert(cv.subrange(0, inputs@.len() as int) =~= cv);
    }
    Ok(highest_block)
}

/// Finds the highest block number among the header dependencies.
pub fn get_highest_block_from_headers(headers: &Vec<HeaderInfo>) -> (r: u64)
    ensures
        r == spec_max_header_block(headers@),
{
    let mut highest_block: u64 = 0;
    let mut i: usize = 0;
    while i < headers.len()
        invariant
            0 <= i <= headers@.len(),
            highest_block == spec_max_header_block(headers@.subrange(0, i as int)),
        decreases headers@.len() - i,
    {
        proof {
            assert(headers@.subrange(0, i + 1).drop_last() =~= headers@.subrange(0, i as int));
            assert(headers@.subrange(0, i + 1).last() == headers@[i as int]);
        }
        if headers[i].number > highest_block {
            highest_block = headers[i].number;
        }
        i = i + 1;
    }
    proof {
        assert(headers@.subrange(0, headers@.len() as int) =~= headers@);
    }
    highest_block
}

/// Finds the highest epoch among the header dependencies.
pub fn get_highest_epoch_from_headers(headers: &Vec<HeaderInfo>) -> (r: u64)
    ensures
        r == spec_max_header_epoch(headers@),
{
    let mut highest_epoch: u64 = 0;
    let mut i: usize = 0;
    while i < headers.len()
        invariant
            0 <= i <= headers@.len(),
            highest_epoch == spec_max_header_epoch(headers@.subrange(0, i as int)),
        decreases headers@.len() - i,
    {
        proof {
            assert(headers@.subrange(0, i + 1).drop_last() =~= headers@.subrange(0, i as int));
            assert(headers@.subrange(0, i + 1).last() == headers@[i as int]);
        }
        if headers[i].epoch > highest_epoch {
            highest_epoch = headers[i].epoch;
        }
        i = i + 1;
    }
    proof {
        assert(headers@.subrange(0, headers@.len() as int) =~= headers@);
    }
    highest_epoch
}

/// Requires at least one header dependency.
pub fn validate_headers_exist(headers: &Vec<HeaderInfo>) -> (r: Result<(), Error>)
    ensures
        r == if headers@.len() == 0 {
            Err::<(), Error>(Error::NoHeaderDependencies)
        } else {
            Ok::<(), Error>(())
        },
{
    if headers.len() == 0 {
        return Err(Error::NoHeaderDependencies);
    }
    Ok(())
}

/// Headers must be strictly fresher than anything a matching input has
/// already recorded.
pub open spec fn spec_header_freshness(
    highest_block_from_inputs: u64,
    highest_block_from_headers: u64,
) -> Result<(), Error> {
    if highest_block_from_headers <= highest_block_from_inputs {
        Err(Error::StaleHeader)
    } else {
        Ok(())
    }
}

/// Rejects headers that are not strictly fresher than the input watermark.
pub fn validate_header_freshness(
    highest_block_from_inputs: u64,
    highest_block_from_headers: u64,
) -> (r: Result<(), Error>)
    ensures
        r == spec_header_freshness(highest_block_from_inputs, highest_block_from_headers),
{
    if highest_block_from_headers <= highest_block_from_inputs {
        return Err(Error::StaleHeader);
    }
    Ok(())
}

/// A successor's watermark must not decrease and must equal the freshest
/// header's block number exactly.
pub open spec fn spec_highest_block_update(
    input_state: VestingState,
    output_state: VestingState,
    highest_block_from_headers: u64,
) -> Result<(), Error> {
    if output_state.highest_block_seen < input_state.highest_block_seen {
        Err(Error::BlockNumberDecrease)
    } else if output_state.highest_block_seen != highest_block_from_headers {
        Err(Error::BlockNumberMismatch)
    } else {
        Ok(())
    }
}

/// Checks the successor's watermark against the input and the headers.
pub fn validate_highest_block_update(
    input_state: &VestingState,
    output_state: &VestingState,
    highest_block_from_headers: u64,
) -> (r: Result<(), Error>)
    ensures
        r == spec_highest_block_update(*input_state, *output_state, highest_block_from_headers),
{
    if output_state.highest_block_seen < input_state.highest_block_seen {
        return Err(Error::BlockNumberDecrease);
    }
    if output_state.highest_block_seen != highest_block_from_headers {
        return Err(Error::BlockNumberMismatch);
    }
    Ok(())
}

} // verus!
