//! Which periodic maintenance tasks run, and how often.
use vstd::prelude::*;

verus! {

/// A periodic maintenance task.
#[derive(Clone, Copy, Debug, PartialEq, Eq)]
pub enum PeriodicTask {
    /// Logs that the server is alive.
    Heartbeat,
    /// Backs the main database up.
    Backup,
    /// Deletes log entries older than the retention.
    LogsCleanup,
    /// Deletes sessions whose refresh token expired.
    SessionCleanup,
    /// Runs the query optimizer.
    Optimize,
}

pub const HEARTBEAT_PERIOD_SEC: i64 = 60;

/// Seven days.
pub const LOGS_RETENTION_DEFAULT_SEC: i64 = 604800;

/// Thirty days.
pub const DEFAULT_REFRESH_TOKEN_TTL_SEC: i64 = 2592000;

/// Twelve hours.
pub const SESSION_CLEANUP_PERIOD_SEC: i64 = 43200;

/// One day.
pub const OPTIMIZE_PERIOD_SEC: i64 = 86400;

/// The largest number of seconds a time delta holds.
pub const MAX_PERIOD_SEC: i64 = 9223372036854775;

/// The tasks to schedule with their periods in seconds, in order: the heartbeat, a backup
/// when an interval is configured, the log cleanup unless the retention (seven days by
/// default) is zero, the session cleanup and the optimizer.
pub open spec fn task_plan(backup_interval_sec: Option<i64>, logs_retention_sec: Option<i64>) -> Seq<(PeriodicTask, i64)> {
    let retention = match logs_retention_sec {
        Some(r) => r,
        None => LOGS_RETENTION_DEFAULT_SEC,
    };
    seq![(PeriodicTask::Heartbeat, HEARTBEAT_PERIOD_SEC)] + (match backup_interval_sec {
        Some(b) => seq![(PeriodicTask::Backup, b)],
        None => seq![],
    }) + (if retention != 0 {
        seq![(PeriodicTask::LogsCleanup, retention)]
    } else {
        seq![]
    }) + seq![
        (PeriodicTask::SessionCleanup, SESSION_CLEANUP_PERIOD_SEC),
        (PeriodicTask::Optimize, OPTIMIZE_PERIOD_SEC),
    ]
}

/// The periodic tasks to start. A backup interval must be positive and a retention must not
/// be negative: a timer cannot tick every zero or a negative number of seconds.
pub fn periodic_tasks(backup_interval_sec: Option<i64>, logs_retention_sec: Option<i64>) -> (r: Vec<(PeriodicTask, i64)>)
    requires
        backup_interval_sec matches Some(b) ==> 0 < b <= MAX_PERIOD_SEC,
        logs_retention_sec matches Some(l) ==> 0 <= l <= MAX_PERIOD_SEC,
    ensures
        r@ == task_plan(backup_interval_sec, logs_retention_sec),
        forall|i: int| 0 <= i < r@.len() ==> (#[trigger] r@[i]).1 > 0,
{
    let mut tasks: Vec<(PeriodicTask, i64)> = Vec::new();
    tasks.push((PeriodicTask::Heartbeat, HEARTBEAT_PERIOD_SEC));
    match backup_interval_sec {
        Some(b) => tasks.push((PeriodicTask::Backup, b)),
        None => {},
    }
    let retention = match logs_retention_sec {
        Some(r) => r,
        None => LOGS_RETENTION_DEFAULT_SEC,
    };
    if retention != 0 {
        tasks.push((PeriodicTask::LogsCleanup, retention));
    }
    tasks.push((PeriodicTask::SessionCleanup, SESSION_CLEANUP_PERIOD_SEC));
    tasks.push((PeriodicTask::Optimize, OPTIMIZE_PERIOD_SEC));
    proof {
        assert(tasks@ =~= task_plan(backup_interval_sec, logs_retention_sec));
    }
    tasks
}

} // verus!
