//! The three time watermarks of an escrow and the phase they put a moment in.

use vstd::prelude::*;
use crate::types::{EscrowError, Phase};

verus! {

/// The absolute watermarks that bound the phases of one escrow.
#[derive(Clone, Copy, Debug, PartialEq, Eq)]
pub struct Timelocks {
    pub finality_end: u64,
    pub exclusive_end: u64,
    pub cancellation_end: u64,
}

impl Timelocks {
    /// No watermark lies before the one that precedes it.
    pub open spec fn ordered(self) -> bool {
        self.finality_end <= self.exclusive_end <= self.cancellation_end
    }
}

/// The watermarks for durations counted from `now`: each is the one before it
/// plus the next duration. There are none when the last would not fit.
pub open spec fn derived(
    now: u64,
    finality_duration: u64,
    exclusive_duration: u64,
    cancellation_duration: u64,
) -> Result<Timelocks, EscrowError> {
    if now + finality_duration + exclusive_duration + cancellation_duration <= u64::MAX {
        Ok(
            Timelocks {
                finality_end: (now + finality_duration) as u64,
                exclusive_end: (now + finality_duration + exclusive_duration) as u64,
                cancellation_end: (now + finality_duration + exclusive_duration
                    + cancellation_duration) as u64,
            },
        )
    } else {
        Err(EscrowError::InvalidDuration)
    }
}

/// The phase of the moment `now`, by half-open intervals: before
/// `finality_end`, from it up to `exclusive_end`, from that up to
/// `cancellation_end`, and from there on.
pub open spec fn phase_at(
    now: u64,
    finality_end: u64,
    exclusive_end: u64,
    cancellation_end: u64,
) -> Phase {
    if now < finality_end {
        Phase::Finality
    } else if now < exclusive_end {
        Phase::Exclusive
    } else if now < cancellation_end {
        Phase::PublicWithdraw
    } else {
        Phase::Cancellable
    }
}

/// Derives the watermarks from the current time and the three durations, or
/// fails with `InvalidDuration` where an addition would overflow.
pub fn derive(
    now: u64,
    finality_duration: u64,
    exclusive_duration: u64,
    cancellation_duration: u64,
) -> (r: Result<Timelocks, EscrowError>)
    ensures
        r == derived(now, finality_duration, exclusive_duration, cancellation_duration),
        r matches Ok(t) ==> t.ordered() && now <= t.finality_end,
{
    let finality_end = match now.checked_add(finality_duration) {
        Some(t) => t,
        None => {
            return Err(EscrowError::InvalidDuration);
        },
    };
    let exclusive_end = match finality_end.checked_add(exclusive_duration) {
        Some(t) => t,
        None => {
            return Err(EscrowError::InvalidDuration);
        },
    };
    let cancellation_end = match exclusive_end.checked_add(cancellation_duration) {
        Some(t) => t,
        None => {
            return Err(EscrowError::InvalidDuration);
        },
    };
    Ok(Timelocks { finality_end, exclusive_end, cancellation_end })
}

/// Classifies the moment `now` against the three watermarks.
pub fn classify(now: u64, finality_end: u64, exclusive_end: u64, cancellation_end: u64) -> (p:
    Phase)
    ensures
        p == phase_at(now, finality_end, exclusive_end, cancellation_end),
{
    if now < finality_end {
        Phase::Finality
    } else if now < exclusive_end {
        Phase::Exclusive
    } else if now < cancellation_end {
        Phase::PublicWithdraw
    } else {
        Phase::Cancellable
    }
}

} // verus!
