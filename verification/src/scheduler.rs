//! The scheduler's lifecycle state machine and its tick policy.
//!
//! The scheduler is either stopped or running; `start` and `stop` move
//! between the two states and misuse is an error, never a silent
//! no-op.  Each iteration of the control loop asks the store for the
//! next due action and then follows `decide_tick`: execute a due
//! action now, wait until a future one (at most a minute, so new or
//! rescheduled tasks are noticed promptly), idle briefly when nothing
//! is scheduled, or back off briefly after a store error.

use vstd::prelude::*;

use crate::errors::AppError;

verus! {

/// How long the loop idles when no task is eligible, in seconds.
pub const IDLE_WAIT_SECONDS: u64 = 10;

/// How long the loop backs off after a store error, in seconds.
pub const ERROR_BACKOFF_SECONDS: u64 = 5;

/// The longest the loop waits for a future due time before asking the
/// store again, in seconds.
pub const MAX_WAIT_SECONDS: u64 = 60;

/// The lifecycle state of the scheduler: stopped or running.
pub struct TaskScheduler {
    running: bool,
}

/// A snapshot of the scheduler's lifecycle state.
#[derive(Clone, Copy, Debug, PartialEq, Eq, Structural)]
pub struct SchedulerStatus {
    pub running: bool,
}

impl TaskScheduler {
    /// Whether the control loop is running.
    pub closed spec fn is_running_spec(self) -> bool {
        self.running
    }

    /// A scheduler that is not yet running.
    pub fn new() -> (r: TaskScheduler)
        ensures
            !r.is_running_spec(),
    {
        TaskScheduler { running: false }
    }

    /// Start the scheduler: an error when it is already running,
    /// otherwise the running flag flips and the surrounding runtime
    /// spawns the control loop.
    pub fn start(&mut self) -> (r: Result<(), AppError>)
        ensures
            old(self).is_running_spec() ==> (r matches Err(AppError::AlreadyRunning)
                && *final(self) == *old(self)),
            !old(self).is_running_spec() ==> r is Ok && final(self).is_running_spec(),
    {
        if self.running {
            Err(AppError::AlreadyRunning)
        } else {
            self.running = true;
            Ok(())
        }
    }

    /// Stop the scheduler: an error when it is not running, otherwise
    /// the running flag clears and the control loop terminates at its
    /// next iteration boundary.
    pub fn stop(&mut self) -> (r: Result<(), AppError>)
        ensures
            !old(self).is_running_spec() ==> (r matches Err(AppError::NotRunning) && *final(self)
                == *old(self)),
            old(self).is_running_spec() ==> r is Ok && !final(self).is_running_spec(),
    {
        if !self.running {
            Err(AppError::NotRunning)
        } else {
            self.running = false;
            Ok(())
        }
    }

    /// Whether the scheduler is running; side-effect free.
    pub fn is_running(&self) -> (r: bool)
        ensures
            r == self.is_running_spec(),
    {
        self.running
    }

    /// The scheduler's lifecycle state as a snapshot value.
    pub fn status(&self) -> (r: SchedulerStatus)
        ensures
            r.running == self.is_running_spec(),
    {
        SchedulerStatus { running: self.running }
    }
}

/// What one query of the store told the control loop.
#[derive(Clone, Copy, Debug, PartialEq, Eq, Structural)]
pub enum PollOutcome {
    /// A next action exists and is due at this instant.
    NextDueAt(i64),
    /// No active task has a cursor set.
    Empty,
    /// The store failed; treated as transient.
    StoreFailed,
}

/// What the control loop does next.
#[derive(Clone, Copy, Debug, PartialEq, Eq, Structural)]
pub enum TickStep {
    /// The next action is due: execute it now.
    RunAction,
    /// Sleep this many seconds, then ask the store again.
    Wait(u64),
}

/// The tick policy: execute an action that is due, wait until a
/// future due time but never longer than `MAX_WAIT_SECONDS`, idle for
/// `IDLE_WAIT_SECONDS` when nothing is scheduled, and back off for
/// `ERROR_BACKOFF_SECONDS` after a store error.
pub open spec fn decide_tick_spec(outcome: PollOutcome, now: int) -> TickStep {
    match outcome {
        PollOutcome::NextDueAt(due_at) => if due_at <= now {
            TickStep::RunAction
        } else if due_at - now < MAX_WAIT_SECONDS {
            TickStep::Wait((due_at - now) as u64)
        } else {
            TickStep::Wait(MAX_WAIT_SECONDS as u64)
        },
        PollOutcome::Empty => TickStep::Wait(IDLE_WAIT_SECONDS as u64),
        PollOutcome::StoreFailed => TickStep::Wait(ERROR_BACKOFF_SECONDS as u64),
    }
}

/// Decide what the control loop does after one query of the store.
pub fn decide_tick(outcome: &PollOutcome, now: i64) -> (r: TickStep)
    ensures
        r == decide_tick_spec(*outcome, now as int),
{
    match outcome {
        PollOutcome::NextDueAt(due_at) => {
            let due = *due_at;
            if due <= now {
                TickStep::RunAction
            } else {
                match due.checked_sub(now) {
                    Some(d) => {
                        if d < MAX_WAIT_SECONDS as i64 {
                            TickStep::Wait(d as u64)
                        } else {
                            TickStep::Wait(MAX_WAIT_SECONDS)
                        }
                    },
                    None => TickStep::Wait(MAX_WAIT_SECONDS),
                }
            }
        },
        PollOutcome::Empty => TickStep::Wait(IDLE_WAIT_SECONDS),
        PollOutcome::StoreFailed => TickStep::Wait(ERROR_BACKOFF_SECONDS),
    }
}

} // verus!
