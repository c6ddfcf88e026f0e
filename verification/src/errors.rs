//! Error taxonomy of the scheduling engine.

use vstd::prelude::*;
use vstd::string::StringExecFns;

verus! {

/// Everything that can go wrong while scheduling or executing a task.
#[derive(Clone, Debug)]
pub enum AppError {
    /// The task store failed.
    Database(String),
    /// An operating-system call failed.
    Io(String),
    /// A timezone name could not be resolved, or a computed local time
    /// was unrepresentable.
    TimeParse(String),
    /// The requested browser is not available.
    BrowserNotFound(String),
    /// No task with this id exists.
    TaskNotFound(i64),
    /// The action runner or the control loop failed.
    Scheduler(String),
    /// The task configuration is invalid: malformed URL or profile, or
    /// a close-all that the task does not permit.
    InvalidTask(String),
    /// The scheduler was started while already running.
    AlreadyRunning,
    /// The scheduler was stopped while not running.
    NotRunning,
}

impl AppError {
    /// The human-readable description of this error.
    pub open spec fn message_spec(self) -> Seq<char> {
        match self {
            AppError::Database(s) => "Database error: "@ + s@,
            AppError::Io(s) => "IO error: "@ + s@,
            AppError::TimeParse(s) => "Time parsing error: "@ + s@,
            AppError::BrowserNotFound(s) => "Browser not found: "@ + s@,
            AppError::TaskNotFound(_) => "Task not found"@,
            AppError::Scheduler(s) => "Scheduler error: "@ + s@,
            AppError::InvalidTask(s) => "Invalid task configuration: "@ + s@,
            AppError::AlreadyRunning => "Already running"@,
            AppError::NotRunning => "Not running"@,
        }
    }

    /// The human-readable description of this error.
    pub fn message(&self) -> (r: String)
        ensures
            r@ == self.message_spec(),
    {
        match self {
            AppError::Database(s) => {
                let mut m = String::from_str("Database error: ");
                m.append(s.as_str());
                m
            },
            AppError::Io(s) => {
                let mut m = String::from_str("IO error: ");
                m.append(s.as_str());
                m
            },
            AppError::TimeParse(s) => {
                let mut m = String::from_str("Time parsing error: ");
                m.append(s.as_str());
                m
            },
            AppError::BrowserNotFound(s) => {
                let mut m = String::from_str("Browser not found: ");
                m.append(s.as_str());
                m
            },
            AppError::TaskNotFound(_) => String::from_str("Task not found"),
            AppError::Scheduler(s) => {
                let mut m = String::from_str("Scheduler error: ");
                m.append(s.as_str());
                m
            },
            AppError::InvalidTask(s) => {
                let mut m = String::from_str("Invalid task configuration: ");
                m.append(s.as_str());
                m
            },
            AppError::AlreadyRunning => String::from_str("Already running"),
            AppError::NotRunning => String::from_str("Not running"),
        }
    }
}

} // verus!
