//! Time gate for pool rebalances.
use vstd::prelude::*;

verus! {

/// A rebalance may run once the scheduled time has been reached.
pub fn is_eligible(current_time: u64, next_exec_ts: u64) -> (r: bool)
    ensures
        r == (current_time >= next_exec_ts),
{
    current_time >= next_exec_ts
}

/// The next permitted rebalance time, one period after `current_time`
/// (a late run moves every later one by the same delay); `None` when that
/// time is past the range of a 64-bit timestamp.
pub fn advance(current_time: u64, period_seconds: u64) -> (r: Option<u64>)
    ensures
        r matches Some(t) ==> t == current_time + period_seconds,
        r is None <==> current_time + period_seconds > u64::MAX,
{
    current_time.checked_add(period_seconds)
}

} // verus!
