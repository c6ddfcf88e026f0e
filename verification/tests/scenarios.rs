//! End-to-end scenarios over the engine's decision functions: the
//! store prepares the record, the selection picks what is due, the
//! tick policy schedules the work, and the executor settles the task.

use do_in_time::decide_tick;
use do_in_time::get_next_action;
use do_in_time::plan_action;
use do_in_time::prepare_task_for_create;
use do_in_time::settle_success;
use do_in_time::ActionPlan;
use do_in_time::BrowserType;
use do_in_time::ExecutionAction;
use do_in_time::ExecutionStatus;
use do_in_time::PollOutcome;
use do_in_time::RepeatConfig;
use do_in_time::RepeatInterval;
use do_in_time::Task;
use do_in_time::TaskStatus;
use do_in_time::TickStep;

// 2024-01-31T12:00:00Z, the moment the scenarios call "now".
const NOW: i64 = 1706702400;

fn fresh_task(start: i64) -> Task {
    let mut t = Task::new(
        String::from("scenario"),
        BrowserType::Chrome,
        start,
        String::from("UTC"),
    );
    t.url = Some(String::from("https://example.com"));
    t.next_open_execution = None;
    t
}

#[test]
fn one_shot_task_opens_once_and_completes() {
    // Create a one-shot task due one second from now, with no close
    // time and no repeat.
    let task = prepare_task_for_create(fresh_task(NOW + 1), NOW).unwrap();
    let store = vec![task];

    // Not yet due: the loop waits for the one remaining second.
    let (i, action) = get_next_action(&store).unwrap();
    assert_eq!(action, ExecutionAction::Open);
    let due = store[i].next_open_execution.unwrap();
    assert_eq!(decide_tick(&PollOutcome::NextDueAt(due), NOW), TickStep::Wait(1));

    // One second later it is due and runs.
    assert_eq!(decide_tick(&PollOutcome::NextDueAt(due), NOW + 1), TickStep::RunAction);
    let plan = plan_action(&store[i], action).unwrap();
    assert!(matches!(plan, ActionPlan::OpenBrowser { .. }));

    // The attempt succeeds; the store would log one Success row with
    // action Open for it.
    let settled = settle_success(&store[i], action, NOW + 1).unwrap();
    assert_eq!(ExecutionStatus::Success.label(), "success");

    // Active -> Completed, the open cursor cleared, one open counted.
    assert_eq!(settled.status, TaskStatus::Completed);
    assert_eq!(settled.next_open_execution, None);
    assert_eq!(settled.last_open_execution, Some(NOW + 1));
    assert_eq!(settled.execution_count, 1);

    // The settled task is no longer selectable.
    let store_after = vec![settled];
    assert!(get_next_action(&store_after).is_none());
}

#[test]
fn daily_task_with_close_time_cycles_open_then_close() {
    // A daily-repeating task due one second from now, closing five
    // seconds after it opens.
    let mut raw = fresh_task(NOW + 1);
    raw.close_time = Some(NOW + 6);
    raw.repeat_config = Some(RepeatConfig {
        interval: RepeatInterval::Daily,
        end_after: None,
        end_date: None,
    });
    let task = prepare_task_for_create(raw, NOW).unwrap();
    assert_eq!(task.next_open_execution, Some(NOW + 1));
    assert_eq!(task.next_close_execution, Some(NOW + 6));

    // The open is due first.
    let store = vec![task];
    let (i, action) = get_next_action(&store).unwrap();
    assert_eq!(action, ExecutionAction::Open);

    // After the open fires, the pending first close is preserved:
    // the close cursor still holds start_time + 5s, while the next
    // open is a day away.
    let after_open = settle_success(&store[i], action, NOW + 1).unwrap();
    assert_eq!(after_open.status, TaskStatus::Active);
    assert_eq!(after_open.next_open_execution, Some(NOW + 1 + 86400));
    assert_eq!(after_open.next_close_execution, Some(NOW + 6));

    // The close is now the earlier cursor and fires next, scoped to
    // the task's URL.
    let store2 = vec![after_open];
    let (j, action2) = get_next_action(&store2).unwrap();
    assert_eq!(action2, ExecutionAction::Close);
    let plan = plan_action(&store2[j], action2).unwrap();
    assert!(matches!(plan, ActionPlan::CloseByUrl { .. }));

    // After the close fires, its cursor clears while the open cursor
    // stays set to the next day.
    let after_close = settle_success(&store2[j], action2, NOW + 6).unwrap();
    assert_eq!(after_close.status, TaskStatus::Active);
    assert_eq!(after_close.next_close_execution, None);
    assert_eq!(after_close.next_open_execution, Some(NOW + 1 + 86400));

    // The next day's open schedules the close of its own cycle: its
    // due time plus the open-to-close offset.
    let after_second_open =
        settle_success(&after_close, ExecutionAction::Open, NOW + 1 + 86400).unwrap();
    assert_eq!(after_second_open.status, TaskStatus::Active);
    assert_eq!(after_second_open.next_close_execution, Some(NOW + 6 + 86400));
}
