//! Times are nanoseconds of one clock that does not run backwards.

use vstd::prelude::*;

verus! {

/// How long ago `since` was; nothing if it has not come yet.
pub open spec fn passed(since: u64, now: u64) -> int {
    if now >= since {
        now - since
    } else {
        0
    }
}

/// How long ago `since` was.
pub fn elapsed(since: u64, now: u64) -> (r: u64)
    ensures
        r == passed(since, now),
{
    if now >= since {
        now - since
    } else {
        0
    }
}

/// What begins now was as long ago as it takes from then on.
pub proof fn law_time_passes(since: u64, d: u64, now: u64, r: u64)
    requires
        call_ensures(elapsed, (since, now), r),
        since + d == now,
    ensures
        r == d,
{
}

/// What has not come yet was no time ago.
pub proof fn law_future_was_not_ago(since: u64, now: u64, r: u64)
    requires
        call_ensures(elapsed, (since, now), r),
        now <= since,
    ensures
        r == 0,
{
}

} // verus!
