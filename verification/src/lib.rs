//! Scheduling and execution engine for timed browser tasks.
//!
//! A task says when a browser should be opened (and optionally closed),
//! possibly repeating daily, weekly or monthly in a named timezone.  The
//! engine decides which action is due next, advances a task's state after
//! each execution, and computes recurrence occurrences with calendar
//! arithmetic.  Timezone lookups go through the `chrono`/`chrono-tz`
//! crates behind trusted wrappers; everything else is verified.

pub mod civil;
pub mod errors;
pub mod executor;
pub mod models;
pub mod recurrence;
pub mod scheduler;
pub mod selection;
pub mod store;
pub mod text;
pub mod tz;
pub mod validation;

pub use civil::CivilDateTime;
pub use errors::AppError;
pub use executor::plan_action;
pub use executor::settle_failure;
pub use executor::settle_success;
pub use executor::should_continue_repeating;
pub use executor::ActionPlan;
pub use models::BrowserType;
pub use models::ExecutionAction;
pub use models::ExecutionStatus;
pub use models::RepeatConfig;
pub use models::RepeatInterval;
pub use models::Task;
pub use models::TaskExecution;
pub use models::TaskStatus;
pub use models::MAX_INSTANT;
pub use recurrence::next_occurrence;
pub use scheduler::decide_tick;
pub use scheduler::PollOutcome;
pub use scheduler::SchedulerStatus;
pub use scheduler::TaskScheduler;
pub use scheduler::TickStep;
pub use selection::cursor_for_action;
pub use selection::get_next_action;
pub use store::prepare_task_for_create;
pub use store::prepare_task_for_update;
pub use validation::escape_applescript_string;
pub use validation::validate_browser_profile;
pub use validation::validate_url;
