//! The vesting schedule: linear vesting with a cliff.
//!
//! `spec_vested` is the mathematical meaning of the schedule;
//! `calculate_vested_amount` computes it.  The amount vested is
//! non-decreasing in the current epoch, and the whole total is vested from
//! the end epoch on.

use vstd::prelude::*;
use vstd::arithmetic::div_mod::{lemma_div_is_ordered, lemma_div_multiples_vanish};
use vstd::arithmetic::mul::lemma_mul_inequality;

verus! {

/// How much of `total_amount` is vested at `current_epoch`.
///
/// After a creator termination (`creator_claimed > 0`) everything the
/// creator did not take back is vested.  Otherwise nothing vests before
/// the start epoch or the cliff, everything is vested from the end epoch
/// on, and in between the vested amount grows linearly with the elapsed
/// epochs.  Should the product `elapsed * total_amount` exceed `u64::MAX`,
/// the schedule deliberately fails open to full vesting.
pub open spec fn spec_vested(
    current_epoch: u64,
    start_epoch: u64,
    end_epoch: u64,
    cliff_epoch: u64,
    total_amount: u64,
    creator_claimed: u64,
) -> int {
    if creator_claimed > 0 {
        if total_amount >= creator_claimed {
            total_amount - creator_claimed
        } else {
            0
        }
    } else if current_epoch < start_epoch {
        0
    } else if start_epoch >= end_epoch {
        total_amount as int
    } else {
        let effective_cliff = if cliff_epoch < end_epoch {
            cliff_epoch
        } else {
            end_epoch
        };
        if current_epoch < effective_cliff {
            0
        } else if current_epoch >= end_epoch {
            total_amount as int
        } else {
            let elapsed = current_epoch - start_epoch;
            let duration = end_epoch - start_epoch;
            if elapsed * total_amount > u64::MAX {
                total_amount as int
            } else {
                (elapsed * total_amount) / duration
            }
        }
    }
}

/// Computes the vested amount under the linear-with-cliff schedule.
pub fn calculate_vested_amount(
    current_epoch: u64,
    start_epoch: u64,
    end_epoch: u64,
    cliff_epoch: u64,
    total_amount: u64,
    creator_claimed: u64,
) -> (r: u64)
    ensures
        r == spec_vested(
            current_epoch,
            start_epoch,
            end_epoch,
            cliff_epoch,
            total_amount,
            creator_claimed,
        ),
{
    // Post-termination: everything not claimed by the creator is vested.
    if creator_claimed > 0 {
        return total_amount.saturating_sub(creator_claimed);
    }

    // Nothing vests before the start epoch.
    if current_epoch < start_epoch {
        return 0;
    }

    // Degenerate schedule: instant vesting at the start.
    if start_epoch >= end_epoch {
        return total_amount;
    }

    // The effective cliff cannot exceed the end epoch.
    let effective_cliff = if cliff_epoch < end_epoch {
        cliff_epoch
    } else {
        end_epoch
    };
    if current_epoch < effective_cliff {
        return 0;
    }

    // From the end epoch on, everything is vested.
    if current_epoch >= end_epoch {
        return total_amount;
    }

    let elapsed = current_epoch - start_epoch;
    let duration = end_epoch - start_epoch;

    match elapsed.checked_mul(total_amount) {
        Some(product) => {
            proof {
                lemma_div_is_ordered(0, product as int, duration as int);
                lemma_div_is_ordered(product as int, u64::MAX as int, duration as int);
            }
            product / duration
        },
        // The product would overflow: fail open to full vesting.
        None => total_amount,
    }
}

/// The vested amount never exceeds the total.
pub proof fn lemma_vested_le_total(
    current_epoch: u64,
    start_epoch: u64,
    end_epoch: u64,
    cliff_epoch: u64,
    total_amount: u64,
    creator_claimed: u64,
)
    ensures
        0 <= spec_vested(
            current_epoch,
            start_epoch,
            end_epoch,
            cliff_epoch,
            total_amount,
            creator_claimed,
        ) <= total_amount,
{
    if creator_claimed == 0 && start_epoch <= current_epoch < end_epoch
        && (if cliff_epoch < end_epoch { cliff_epoch } else { end_epoch }) <= current_epoch {
        let elapsed = current_epoch - start_epoch;
        let duration = end_epoch - start_epoch;
        if elapsed * total_amount <= u64::MAX {
            lemma_div_is_ordered(0, elapsed * total_amount, duration);
            lemma_mul_inequality(elapsed, duration, total_amount as int);
            lemma_div_is_ordered(
                elapsed * total_amount,
                duration * total_amount,
                duration,
            );
            lemma_div_multiples_vanish(total_amount as int, duration);
        }
    }
}

/// Monotonic vesting: with the other arguments fixed, the vested amount
/// is non-decreasing in the current epoch.
pub proof fn lemma_vested_monotonic(
    epoch1: u64,
    epoch2: u64,
    start_epoch: u64,
    end_epoch: u64,
    cliff_epoch: u64,
    total_amount: u64,
    creator_claimed: u64,
)
    requires
        epoch1 <= epoch2,
    ensures
        spec_vested(epoch1, start_epoch, end_epoch, cliff_epoch, total_amount, creator_claimed)
            <= spec_vested(
            epoch2,
            start_epoch,
            end_epoch,
            cliff_epoch,
            total_amount,
            creator_claimed,
        ),
{
    lemma_vested_le_total(
        epoch1,
        start_epoch,
        end_epoch,
        cliff_epoch,
        total_amount,
        creator_claimed,
    );
    lemma_vested_le_total(
        epoch2,
        start_epoch,
        end_epoch,
        cliff_epoch,
        total_amount,
        creator_claimed,
    );
    if creator_claimed == 0 && start_epoch < end_epoch {
        let effective_cliff = if cliff_epoch < end_epoch { cliff_epoch } else { end_epoch };
        if effective_cliff <= epoch1 && start_epoch <= epoch1 && epoch1 < end_epoch
            && epoch2 < end_epoch {
            let elapsed1 = epoch1 - start_epoch;
            let elapsed2 = epoch2 - start_epoch;
            let duration = end_epoch - start_epoch;
            lemma_mul_inequality(elapsed1, elapsed2, total_amount as int);
            if elapsed2 * total_amount <= u64::MAX {
                lemma_div_is_ordered(
                    elapsed1 * total_amount,
                    elapsed2 * total_amount,
                    duration,
                );
            }
        }
    }
}

/// Full vesting at and after the end epoch: under an ordered schedule and
/// before any termination, the whole total is vested once the current
/// epoch reaches the end epoch.
pub proof fn lemma_vested_full_at_end(
    current_epoch: u64,
    start_epoch: u64,
    end_epoch: u64,
    cliff_epoch: u64,
    total_amount: u64,
)
    requires
        start_epoch < end_epoch,
        current_epoch >= end_epoch,
    ensures
        spec_vested(current_epoch, start_epoch, end_epoch, cliff_epoch, total_amount, 0)
            == total_amount,
{
}

} // verus!
