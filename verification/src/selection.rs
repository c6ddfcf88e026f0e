//! Action selection: which (task, action) pair is due next.
//!
//! Among the active tasks with at least one cursor set, the pair with
//! the earliest due instant wins; when a task's open and close cursors
//! are equal, the open comes first (an open must precede its own
//! close).  Among tasks tied for the same instant, the first in the
//! list wins.  The selection is a pure function of the task list, so
//! repeated queries of an unchanged store agree, and every change to
//! the store is reflected by the next query.

use vstd::prelude::*;

use crate::models::ExecutionAction;
use crate::models::Task;
use crate::models::TaskStatus;

verus! {

/// Whether the loop may select a task: it is active and at least one
/// cursor is set.
pub open spec fn eligible(t: Task) -> bool {
    t.status == TaskStatus::Active && (t.next_open_execution is Some || t.next_close_execution
        is Some)
}

/// The action due next on an eligible task: the one with the earlier
/// cursor, preferring open on a tie.
pub open spec fn due_action(t: Task) -> ExecutionAction {
    match (t.next_open_execution, t.next_close_execution) {
        (Some(o), Some(c)) => if o <= c {
            ExecutionAction::Open
        } else {
            ExecutionAction::Close
        },
        (Some(_), None) => ExecutionAction::Open,
        _ => ExecutionAction::Close,
    }
}

/// The instant at which an eligible task's next action is due.
pub open spec fn due_time(t: Task) -> int {
    match (t.next_open_execution, t.next_close_execution) {
        (Some(o), Some(c)) => if o <= c {
            o as int
        } else {
            c as int
        },
        (Some(o), None) => o as int,
        (None, Some(c)) => c as int,
        (None, None) => 0,
    }
}

/// The first task whose next action is due earliest, with that
/// action; `None` when no task is eligible.
pub open spec fn next_action_spec(tasks: Seq<Task>) -> Option<(int, ExecutionAction)>
    decreases tasks.len(),
{
    if tasks.len() == 0 {
        None
    } else {
        let last = tasks[tasks.len() - 1];
        let prior = next_action_spec(tasks.drop_last());
        if !eligible(last) {
            prior
        } else {
            match prior {
                None => Some((tasks.len() - 1, due_action(last))),
                Some((i, a)) => if due_time(tasks[i]) <= due_time(last) {
                    prior
                } else {
                    Some((tasks.len() - 1, due_action(last)))
                },
            }
        }
    }
}

/// What the selection returns: an eligible task whose due instant is
/// minimal over all eligible tasks, the first such task in the list,
/// paired with the action due on it; and `None` exactly when no task
/// is eligible.
pub proof fn lemma_next_action_spec_sound(tasks: Seq<Task>)
    ensures
        next_action_spec(tasks) matches Some((i, a)) ==> 0 <= i < tasks.len() && eligible(
            tasks[i],
        ) && a == due_action(tasks[i]) && (forall|j: int|
            0 <= j < tasks.len() && eligible(#[trigger] tasks[j]) ==> due_time(tasks[i])
                <= due_time(tasks[j])) && (forall|j: int|
            0 <= j < i && eligible(#[trigger] tasks[j]) ==> due_time(tasks[i]) < due_time(
                tasks[j],
            )),
        next_action_spec(tasks) is None <==> (forall|j: int|
            0 <= j < tasks.len() ==> !eligible(#[trigger] tasks[j])),
    decreases tasks.len(),
{
    if tasks.len() > 0 {
        lemma_next_action_spec_sound(tasks.drop_last());
        assert forall|j: int| 0 <= j < tasks.len() - 1 implies tasks.drop_last()[j] == tasks[j] by {}
    }
}

/// The cursor a due action reads: the open cursor for an open, the
/// close cursor for a close.
pub fn cursor_for_action(task: &Task, action: ExecutionAction) -> (r: Option<i64>)
    ensures
        action == ExecutionAction::Open ==> r == task.next_open_execution,
        action == ExecutionAction::Close ==> r == task.next_close_execution,
{
    match action {
        ExecutionAction::Open => task.next_open_execution,
        ExecutionAction::Close => task.next_close_execution,
    }
}

/// Select the next due (task, action) pair from the task list: the
/// eligible task with the earliest due instant (the first such task on
/// a tie), and the action due on it.
pub fn get_next_action(tasks: &Vec<Task>) -> (r: Option<(usize, ExecutionAction)>)
    ensures
        r matches Some((i, a)) ==> i < tasks.len() && next_action_spec(tasks@) == Some(
            (i as int, a),
        ),
        r is None ==> next_action_spec(tasks@) is None,
{
    let n = tasks.len();
    let mut best: Option<(usize, ExecutionAction)> = None;
    let mut best_due: i64 = 0;
    let mut k: usize = 0;
    proof {
        assert(tasks@.take(0) =~= Seq::<Task>::empty());
    }
    while k < n
        invariant
            k <= n,
            n == tasks.len(),
            best matches Some((i, a)) ==> i < k && next_action_spec(tasks@.take(k as int)) == Some(
                (i as int, a),
            ) && eligible(tasks@[i as int]) && best_due as int == due_time(tasks@[i as int]),
            best is None ==> next_action_spec(tasks@.take(k as int)) is None,
        decreases n - k,
    {
        let t = &tasks[k];
        proof {
            assert(tasks@.take(k as int + 1).drop_last() =~= tasks@.take(k as int));
            assert(tasks@.take(k as int + 1)[k as int] == tasks@[k as int]);
        }
        let t_eligible = t.status == TaskStatus::Active && (t.next_open_execution.is_some()
            || t.next_close_execution.is_some());
        if t_eligible {
            let (due, act): (i64, ExecutionAction) = match (
                t.next_open_execution,
                t.next_close_execution,
            ) {
                (Some(o), Some(c)) => if o <= c {
                    (o, ExecutionAction::Open)
                } else {
                    (c, ExecutionAction::Close)
                },
                (Some(o), None) => (o, ExecutionAction::Open),
                (None, Some(c)) => (c, ExecutionAction::Close),
                (None, None) => (0, ExecutionAction::Close),
            };
            match best {
                None => {
                    best = Some((k, act));
                    best_due = due;
                },
                Some(_) => {
                    if !(best_due <= due) {
                        best = Some((k, act));
                        best_due = due;
                    }
                },
            }
        }
        k = k + 1;
    }
    proof {
        assert(tasks@.take(n as int) =~= tasks@);
    }
    best
}

} // verus!
