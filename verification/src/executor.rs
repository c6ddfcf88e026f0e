//! The task executor's decision logic: what a due action does, and how
//! a task's state advances after an execution attempt.
//!
//! Performing the action itself (launching or killing a browser
//! process) and persisting the updated task are outside work; the
//! functions here decide everything about it.  `plan_action` validates
//! the task and picks the concrete browser operation; `settle_success`
//! and `settle_failure` compute the task as it must be persisted after
//! the attempt.

use vstd::prelude::*;
use vstd::string::StringExecFns;

use crate::errors::AppError;
use crate::models::BrowserType;
use crate::models::ExecutionAction;
use crate::models::RepeatConfig;
use crate::models::Task;
use crate::models::TaskStatus;
use crate::recurrence::next_occurrence;
use crate::recurrence::next_occurrence_ok;
use crate::recurrence::next_occurrence_value;
use crate::validation::profile_valid;
use crate::validation::url_valid;
use crate::validation::validate_browser_profile;
use crate::validation::validate_url;

verus! {

/// The concrete browser operation a due action maps to.
#[derive(Clone, Debug)]
pub enum ActionPlan {
    /// Launch the browser, optionally on a URL, optionally in a named
    /// profile.
    OpenBrowser { browser: BrowserType, url: Option<String>, profile: Option<String> },
    /// Close the browser windows or tabs showing the URL.
    CloseByUrl { browser: BrowserType, url: String },
    /// Close every instance of the browser.  Only planned when the
    /// task explicitly allows it.
    CloseAll { browser: BrowserType },
}

/// Whether the task passes validation and permits the action: its URL
/// and profile (when present) are valid, and a close without a URL is
/// backed by `allow_close_all`.
pub open spec fn plan_ok(task: Task, action: ExecutionAction) -> bool {
    &&& (task.url matches Some(u) ==> url_valid(u@))
    &&& (task.browser_profile matches Some(p) ==> profile_valid(p@))
    &&& (action == ExecutionAction::Close && task.url is None ==> task.allow_close_all)
}

/// The operation a permitted action performs.
pub open spec fn plan_value(task: Task, action: ExecutionAction) -> ActionPlan {
    match action {
        ExecutionAction::Open => (ActionPlan::OpenBrowser {
            browser: task.browser,
            url: task.url,
            profile: task.browser_profile,
        }),
        ExecutionAction::Close => match task.url {
            Some(u) => (ActionPlan::CloseByUrl { browser: task.browser, url: u }),
            None => (ActionPlan::CloseAll { browser: task.browser }),
        },
    }
}

/// Decide what a due action does, re-validating the task first.
///
/// A close action on a task with no URL and without `allow_close_all`
/// always fails as an invalid task, before any browser is touched.
pub fn plan_action(task: &Task, action: ExecutionAction) -> (r: Result<ActionPlan, AppError>)
    ensures
        r is Ok <==> plan_ok(*task, action),
        r matches Ok(p) ==> p == plan_value(*task, action),
        r is Err ==> r matches Err(AppError::InvalidTask(_)),
        action == ExecutionAction::Close && task.url is None && !task.allow_close_all
            ==> r matches Err(AppError::InvalidTask(_)),
{
    if let Some(url) = &task.url {
        if let Err(e) = validate_url(url.as_str()) {
            return Err(e);
        }
    }
    if let Some(profile) = &task.browser_profile {
        if let Err(e) = validate_browser_profile(profile.as_str()) {
            return Err(e);
        }
    }
    match action {
        ExecutionAction::Open => Ok(
            ActionPlan::OpenBrowser {
                browser: task.browser,
                url: clone_opt_string(&task.url),
                profile: clone_opt_string(&task.browser_profile),
            },
        ),
        ExecutionAction::Close => {
            match &task.url {
                Some(url) => Ok(ActionPlan::CloseByUrl { browser: task.browser, url: url.clone() }),
                None => {
                    if task.allow_close_all {
                        Ok(ActionPlan::CloseAll { browser: task.browser })
                    } else {
                        Err(
                            AppError::InvalidTask(
                                String::from_str(
                                    "Closing all browser instances requires allow_close_all",
                                ),
                            ),
                        )
                    }
                },
            }
        },
    }
}

/// Whether a repeating task continues after a successful open: under
/// an `end_after` limit, while the open count stays below it; under an
/// `end_date`, while the computed next occurrence lies strictly before
/// it; otherwise always.
pub open spec fn continues_spec(config: RepeatConfig, execution_count: int, next: int) -> bool {
    match config.end_after {
        Some(n) => execution_count < n,
        None => match config.end_date {
            Some(d) => next < d,
            None => true,
        },
    }
}

/// Whether a repeating task continues after a successful open.
/// `execution_count` already counts that open; `next` is the computed
/// next occurrence.
pub fn should_continue_repeating(config: &RepeatConfig, execution_count: i64, next: i64) -> (r:
    bool)
    ensures
        r == continues_spec(*config, execution_count as int, next as int),
{
    match config.end_after {
        Some(n) => execution_count < n as i64,
        None => match config.end_date {
            Some(d) => next < d,
            None => true,
        },
    }
}

/// The task as persisted after a successful close: the close cursor
/// clears, and the task is complete when nothing remains scheduled —
/// it is one-shot, or no open is pending.  A task never stays active
/// with both cursors unset.
pub open spec fn closed_spec(task: Task, now: i64) -> Task {
    Task {
        status: if task.repeat_config is None || task.next_open_execution is None {
            TaskStatus::Completed
        } else {
            task.status
        },
        last_close_execution: Some(now),
        next_close_execution: None,
        ..task
    }
}

/// The task as persisted after the successful open of a one-shot
/// task: the open cursor clears, and the task is complete unless a
/// close is still owed — it has a close time and the close cursor is
/// still set.  A task never stays active with both cursors unset.
pub open spec fn opened_oneshot_spec(task: Task, now: i64) -> Task {
    Task {
        status: if task.close_time is None || task.next_close_execution is None {
            TaskStatus::Completed
        } else {
            task.status
        },
        last_open_execution: Some(now),
        next_open_execution: None,
        execution_count: (task.execution_count + 1) as i64,
        ..task
    }
}

/// The task as persisted after a successful open of a repeating task
/// that continues: the open cursor moves to `next`, and the close
/// cursor becomes the close of the cycle just opened.  A close that
/// is still pending is left untouched — the open must not push its
/// own close away — and when none is pending but a close time exists,
/// the close is scheduled at the fired open's due time plus the
/// open-to-close offset.
pub open spec fn opened_continuing_spec(task: Task, now: i64, next: i64) -> Task {
    Task {
        status: TaskStatus::Active,
        last_open_execution: Some(now),
        next_open_execution: Some(next),
        next_close_execution: match (
            task.close_time,
            task.next_close_execution,
            task.next_open_execution,
        ) {
            (Some(ct), None, Some(o)) => Some((o + ct - task.start_time) as i64),
            _ => task.next_close_execution,
        },
        execution_count: (task.execution_count + 1) as i64,
        ..task
    }
}

/// The task as persisted after the successful open that reaches a
/// repeating task's continuation limit: both cursors clear and the
/// task is complete.
pub open spec fn opened_completed_spec(task: Task, now: i64) -> Task {
    Task {
        status: TaskStatus::Completed,
        last_open_execution: Some(now),
        next_open_execution: None,
        next_close_execution: None,
        execution_count: (task.execution_count + 1) as i64,
        ..task
    }
}

/// Whether scheduling the close of the cycle just opened (the fired
/// open's due time plus the open-to-close offset) would leave the
/// representable instant range.
pub open spec fn close_cursor_overflow(task: Task) -> bool {
    match (task.close_time, task.next_close_execution, task.next_open_execution) {
        (Some(ct), None, Some(o)) => !(i64::MIN <= o + ct - task.start_time <= i64::MAX),
        _ => false,
    }
}

/// Advance a task's state after a successful execution of `action` at
/// instant `now`, per the task state machine:
///
/// - a close clears the close cursor, completing the task when it is
///   one-shot or no open is pending;
/// - a one-shot open clears the open cursor, completing the task
///   unless a close is still owed (a close time with its cursor set);
/// - a repeating open computes the next occurrence, and either
///   continues (open cursor moved there; a pending close untouched,
///   else the close of the just-opened cycle scheduled at the fired
///   open's due time plus the open-to-close offset) or, once the
///   continuation limit is reached, clears both cursors and
///   completes the task.
pub fn settle_success(task: &Task, action: ExecutionAction, now: i64) -> (r: Result<
    Task,
    AppError,
>)
    requires
        task.wf(),
        task.execution_count < i64::MAX,
    ensures
        action == ExecutionAction::Close ==> r == Ok::<Task, AppError>(closed_spec(*task, now)),
        action == ExecutionAction::Open && task.repeat_config is None ==> r == Ok::<
            Task,
            AppError,
        >(opened_oneshot_spec(*task, now)),
        action == ExecutionAction::Open ==> (task.repeat_config matches Some(rc) ==> ({
            let tzv = task.timezone@;
            let base = task.start_time as int;
            if !next_occurrence_ok(tzv, base, rc.interval) {
                r matches Err(AppError::TimeParse(_))
            } else {
                let next = next_occurrence_value(tzv, base, rc.interval);
                if continues_spec(rc, task.execution_count + 1, next as int) {
                    if close_cursor_overflow(*task) {
                        r matches Err(AppError::TimeParse(_))
                    } else {
                        r == Ok::<Task, AppError>(opened_continuing_spec(*task, now, next))
                    }
                } else {
                    r == Ok::<Task, AppError>(opened_completed_spec(*task, now))
                }
            }
        })),
{
    let mut t = clone_task(task);
    match action {
        ExecutionAction::Close => {
            t.last_close_execution = Some(now);
            t.next_close_execution = None;
            if t.repeat_config.is_none() || t.next_open_execution.is_none() {
                t.status = TaskStatus::Completed;
            }
            Ok(t)
        },
        ExecutionAction::Open => {
            t.last_open_execution = Some(now);
            t.execution_count = t.execution_count + 1;
            match task.repeat_config {
                None => {
                    t.next_open_execution = None;
                    if task.close_time.is_none() || task.next_close_execution.is_none() {
                        t.status = TaskStatus::Completed;
                    }
                    Ok(t)
                },
                Some(rc) => {
                    let next = match next_occurrence(
                        task.start_time,
                        task.timezone.as_str(),
                        rc.interval,
                    ) {
                        Ok(n) => n,
                        Err(e) => {
                            return Err(e);
                        },
                    };
                    if should_continue_repeating(&rc, t.execution_count, next) {
                        t.next_open_execution = Some(next);
                        if let Some(ct) = task.close_time {
                            if task.next_close_execution.is_none() {
                                if let Some(o) = task.next_open_execution {
                                    let off = ct - task.start_time;
                                    match o.checked_add(off) {
                                        Some(nc) => {
                                            t.next_close_execution = Some(nc);
                                        },
                                        None => {
                                            return Err(
                                                AppError::TimeParse(
                                                    String::from_str(
                                                        "Computed close time out of range",
                                                    ),
                                                ),
                                            );
                                        },
                                    }
                                }
                            }
                        }
                        t.status = TaskStatus::Active;
                        Ok(t)
                    } else {
                        t.next_open_execution = None;
                        t.next_close_execution = None;
                        t.status = TaskStatus::Completed;
                        Ok(t)
                    }
                },
            }
        },
    }
}

/// The task as persisted after a failed execution attempt: marked
/// failed, nothing else changed.  Its cursors do not advance, so it is
/// never selected as due again until an outside update reactivates it.
pub open spec fn failed_spec(task: Task) -> Task {
    Task { status: TaskStatus::Failed, ..task }
}

/// Mark a task failed after an execution attempt failed.
pub fn settle_failure(task: &Task) -> (r: Task)
    ensures
        r == failed_spec(*task),
{
    let mut t = clone_task(task);
    t.status = TaskStatus::Failed;
    t
}

/// An exact copy of a task.
pub fn clone_task(task: &Task) -> (r: Task)
    ensures
        r == *task,
{
    Task {
        id: task.id,
        name: task.name.clone(),
        browser: task.browser,
        browser_profile: clone_opt_string(&task.browser_profile),
        url: clone_opt_string(&task.url),
        allow_close_all: task.allow_close_all,
        start_time: task.start_time,
        close_time: task.close_time,
        timezone: task.timezone.clone(),
        repeat_config: task.repeat_config,
        status: task.status,
        created_at: task.created_at,
        updated_at: task.updated_at,
        last_open_execution: task.last_open_execution,
        last_close_execution: task.last_close_execution,
        next_open_execution: task.next_open_execution,
        next_close_execution: task.next_close_execution,
        execution_count: task.execution_count,
    }
}

/// An exact copy of an optional string.
fn clone_opt_string(s: &Option<String>) -> (r: Option<String>)
    ensures
        r == *s,
{
    match s {
        Some(x) => Some(x.clone()),
        None => None,
    }
}

/// The data-model invariant at every transition: however a
/// successful execution leaves a task active, at least one cursor is
/// still set — a task whose cursors both come out unset has left the
/// active state.
pub proof fn lemma_active_keeps_a_cursor(task: Task, now: i64, next: i64)
    ensures
        opened_oneshot_spec(task, now).status == TaskStatus::Active ==> opened_oneshot_spec(
            task,
            now,
        ).next_close_execution is Some,
        opened_continuing_spec(task, now, next).next_open_execution is Some,
        closed_spec(task, now).status == TaskStatus::Active ==> closed_spec(
            task,
            now,
        ).next_open_execution is Some,
        opened_completed_spec(task, now).status == TaskStatus::Completed,
        failed_spec(task).status == TaskStatus::Failed,
{
}

/// Under an `end_after` limit of `n`, a successful open completes the
/// task exactly when it is the `n`-th success (or later): the settled
/// task is complete with both cursors cleared when the new open count
/// reaches `n`, and otherwise stays active with its open cursor moved
/// to the next occurrence.
pub proof fn lemma_end_after_completion(task: Task, now: i64, next: i64, rc: RepeatConfig, n: i32)
    requires
        task.repeat_config == Some(rc),
        rc.end_after == Some(n),
    ensures
        continues_spec(rc, task.execution_count + 1, next as int) <==> task.execution_count + 1
            < n,
        task.execution_count + 1 >= n ==> opened_completed_spec(task, now).status
            == TaskStatus::Completed && opened_completed_spec(task, now).next_open_execution
            is None && opened_completed_spec(task, now).next_close_execution is None,
        task.execution_count + 1 < n ==> opened_continuing_spec(task, now, next).status
            == TaskStatus::Active && opened_continuing_spec(task, now, next).next_open_execution
            == Some(next),
{
}

/// Under an `end_date` limit of `d` (and no `end_after`), a repeating
/// task stops continuing exactly when the computed next occurrence is
/// not strictly before `d`: the settled task is then complete with
/// both cursors cleared, and otherwise stays active with its open
/// cursor moved to the next occurrence.
pub proof fn lemma_end_date_completion(task: Task, now: i64, next: i64, rc: RepeatConfig, d: i64)
    requires
        task.repeat_config == Some(rc),
        rc.end_after is None,
        rc.end_date == Some(d),
    ensures
        continues_spec(rc, task.execution_count + 1, next as int) <==> (next as int) < d,
        next >= d ==> opened_completed_spec(task, now).status == TaskStatus::Completed
            && opened_completed_spec(task, now).next_open_execution is None
            && opened_completed_spec(task, now).next_close_execution is None,
        next < d ==> opened_continuing_spec(task, now, next).status == TaskStatus::Active
            && opened_continuing_spec(task, now, next).next_open_execution == Some(next),
{
}

} // verus!
