//! The loss alarm.
//!
//! The monitor compares the cumulative loss with the configured ceiling.
//! The alarm is advisory: it halts nothing, and it is raised again on
//! every check for as long as the loss stays above the ceiling.

use crate::position_tracker::PositionTracker;
use crate::text::{dollars, dollars_string};
use vstd::prelude::*;
use vstd::string::StringExecFns;

verus! {

/// The alarm raised for a loss of `loss_cents` above a ceiling of
/// `limit_cents`.
pub open spec fn advisory(loss_cents: int, limit_cents: int) -> Seq<char> {
    "CIRCUIT BREAKER TRIGGERED | Loss: $"@ + dollars(loss_cents) + " exceeds limit $"@ + dollars(
        limit_cents,
    )
}

/// Checks the circuit breaker: the alarm if the cumulative loss is above
/// `max_daily_loss_cents`, nothing otherwise. The tracker is only read.
pub fn circuit_breaker(tracker: &PositionTracker, max_daily_loss_cents: u16) -> (alarm: Option<
    String,
>)
    ensures
        match alarm {
            Some(text) => tracker@.loss_exceeds(max_daily_loss_cents as int) && text@ == advisory(
                -tracker@.total_pnl,
                max_daily_loss_cents as int,
            ),
            None => !tracker@.loss_exceeds(max_daily_loss_cents as int),
        },
{
    if !tracker.loss_exceeds(max_daily_loss_cents) {
        return None;
    }
    let loss = dollars_string(-(tracker.total_pnl() as i64));
    let limit = dollars_string(max_daily_loss_cents as i64);
    let mut text = String::from_str("CIRCUIT BREAKER TRIGGERED | Loss: $");
    text.append(loss.as_str());
    text.append(" exceeds limit $");
    text.append(limit.as_str());
    Some(text)
}

} // verus!
