//! Querying the status of one job, running or completed.
//!
//! The command-line driver fetches the job's accounting record, prints
//! the wait and runtime figures the record accessors derive, and — for a
//! started job with a time limit — how long the job may still run.  That
//! last computation is the one piece of arithmetic of its own, stated
//! here.

use vstd::prelude::*;
use crate::heap::MAX_TIMESTAMP;
use crate::JobId;

verus! {

/// Options of the job-status command.
pub struct StatusCommand {
    /// The ID of the job to query.
    pub jobid: JobId,
}

/// Whole minutes left until a started job reaches its time limit, or
/// nothing once no whole minute remains: the limit's end is the start
/// time plus the limit, and the distance from `now` counts only while it
/// is positive.
pub fn remaining_minutes(start: i64, time_limit_minutes: u32, now: i64) -> (r: Option<i64>)
    requires
        0 <= start <= MAX_TIMESTAMP,
        0 <= now <= MAX_TIMESTAMP,
    ensures
        ({
            let rem_secs = start + time_limit_minutes * 60 - now;
            &&& (r is Some <==> rem_secs >= 60)
            &&& (r matches Some(m) ==> m == rem_secs / 60 && m > 0)
        }),
{
    let rem_secs: i64 = start + (time_limit_minutes as i64) * 60 - now;
    if rem_secs < 60 {
        None
    } else {
        let m = (rem_secs as u64) / 60;
        Some(m as i64)
    }
}

} // verus!
