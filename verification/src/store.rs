//! The pure half of the task store's write paths: what a task record
//! must look like when it is created or updated.
//!
//! Creation validates the task, stamps it, and gives both cursors
//! their initial values.  An update validates and stamps the task;
//! when its scheduled times changed, the cursors are recomputed
//! against the current time, and a finished task becomes active
//! again.  The store itself (rows, SQL, connections) is outside work;
//! it persists exactly what these functions return.

use vstd::prelude::*;

use crate::errors::AppError;
use crate::models::Task;
use crate::models::TaskStatus;
use crate::validation::profile_valid;
use crate::validation::url_valid;
use crate::validation::validate_browser_profile;
use crate::validation::validate_url;

verus! {

/// Whether the task's URL and browser profile (when present) pass
/// validation.
pub open spec fn task_fields_valid(task: Task) -> bool {
    &&& (task.url matches Some(u) ==> url_valid(u@))
    &&& (task.browser_profile matches Some(p) ==> profile_valid(p@))
}

/// A new task as persisted: stamped with the creation time, its open
/// cursor defaulting to the start time and its close cursor to the
/// close time.
pub open spec fn created_spec(task: Task, now: i64) -> Task {
    Task {
        created_at: now,
        updated_at: now,
        next_open_execution: if task.next_open_execution is None {
            Some(task.start_time)
        } else {
            task.next_open_execution
        },
        next_close_execution: if task.close_time is Some && task.next_close_execution is None {
            task.close_time
        } else {
            task.next_close_execution
        },
        ..task
    }
}

/// Validate and prepare a task for creation.
pub fn prepare_task_for_create(task: Task, now: i64) -> (r: Result<Task, AppError>)
    ensures
        r is Ok <==> task_fields_valid(task),
        r matches Ok(t) ==> t == created_spec(task, now),
        r is Err ==> r matches Err(AppError::InvalidTask(_)),
{
    if let Some(url) = &task.url {
        if let Err(e) = validate_url(url.as_str()) {
            return Err(e);
        }
    }
    if let Some(profile) = &task.browser_profile {
        if let Err(e) = validate_browser_profile(profile.as_str()) {
            return Err(e);
        }
    }
    let mut t = task;
    t.created_at = now;
    t.updated_at = now;
    if t.next_open_execution.is_none() {
        t.next_open_execution = Some(t.start_time);
    }
    if t.close_time.is_some() && t.next_close_execution.is_none() {
        t.next_close_execution = t.close_time;
    }
    Ok(t)
}

/// Whether an update changed the task's scheduled times.
pub open spec fn times_changed(old_task: Task, task: Task) -> bool {
    old_task.start_time != task.start_time || old_task.close_time != task.close_time
}

/// An updated task as persisted: stamped with the update time; and
/// when its scheduled times changed, the cursors recomputed against
/// the current time (a time already past gets no cursor) and a
/// completed or failed task reactivated with its audit timestamps
/// cleared.
pub open spec fn updated_spec(old_task: Task, task: Task, now: i64) -> Task {
    if !times_changed(old_task, task) {
        Task { updated_at: now, ..task }
    } else {
        let reactivated = task.status == TaskStatus::Completed || task.status == TaskStatus::Failed;
        Task {
            updated_at: now,
            status: if reactivated {
                TaskStatus::Active
            } else {
                task.status
            },
            last_open_execution: if reactivated {
                None
            } else {
                task.last_open_execution
            },
            last_close_execution: if reactivated {
                None
            } else {
                task.last_close_execution
            },
            next_open_execution: if task.start_time > now {
                Some(task.start_time)
            } else {
                None
            },
            next_close_execution: match task.close_time {
                Some(ct) => if ct > now {
                    Some(ct)
                } else {
                    None
                },
                None => None,
            },
            ..task
        }
    }
}

/// Validate and prepare a task for an update, given the task as it
/// stands in the store.
pub fn prepare_task_for_update(old_task: &Task, task: Task, now: i64) -> (r: Result<
    Task,
    AppError,
>)
    ensures
        r is Ok <==> task_fields_valid(task),
        r matches Ok(t) ==> t == updated_spec(*old_task, task, now),
        r is Err ==> r matches Err(AppError::InvalidTask(_)),
{
    if let Some(url) = &task.url {
        if let Err(e) = validate_url(url.as_str()) {
            return Err(e);
        }
    }
    if let Some(profile) = &task.browser_profile {
        if let Err(e) = validate_browser_profile(profile.as_str()) {
            return Err(e);
        }
    }
    let mut t = task;
    t.updated_at = now;
    let changed = old_task.start_time != t.start_time || !same_opt_i64(
        &old_task.close_time,
        &t.close_time,
    );
    if changed {
        if t.status == TaskStatus::Completed || t.status == TaskStatus::Failed {
            t.status = TaskStatus::Active;
            t.last_open_execution = None;
            t.last_close_execution = None;
        }
        if t.start_time > now {
            t.next_open_execution = Some(t.start_time);
        } else {
            t.next_open_execution = None;
        }
        match t.close_time {
            Some(ct) => {
                if ct > now {
                    t.next_close_execution = Some(ct);
                } else {
                    t.next_close_execution = None;
                }
            },
            None => {
                t.next_close_execution = None;
            },
        }
    }
    Ok(t)
}

/// Whether two optional instants are equal.
fn same_opt_i64(a: &Option<i64>, b: &Option<i64>) -> (r: bool)
    ensures
        r == (*a == *b),
{
    match (a, b) {
        (Some(x), Some(y)) => *x == *y,
        (None, None) => true,
        _ => false,
    }
}

} // verus!
