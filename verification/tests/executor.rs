use do_in_time::plan_action;
use do_in_time::settle_failure;
use do_in_time::settle_success;
use do_in_time::should_continue_repeating;
use do_in_time::ActionPlan;
use do_in_time::AppError;
use do_in_time::BrowserType;
use do_in_time::ExecutionAction;
use do_in_time::RepeatConfig;
use do_in_time::RepeatInterval;
use do_in_time::Task;
use do_in_time::TaskStatus;

// 2024-01-31T12:00:00Z
const START: i64 = 1706702400;

fn base_task() -> Task {
    Task::new(
        String::from("demo"),
        BrowserType::Chrome,
        START,
        String::from("UTC"),
    )
}

#[test]
fn close_without_url_and_without_permission_is_invalid_task() {
    let mut task = base_task();
    task.url = None;
    task.allow_close_all = false;
    let r = plan_action(&task, ExecutionAction::Close);
    assert!(matches!(r, Err(AppError::InvalidTask(_))));
}

#[test]
fn close_without_url_with_permission_closes_all() {
    let mut task = base_task();
    task.allow_close_all = true;
    let r = plan_action(&task, ExecutionAction::Close).unwrap();
    assert!(matches!(r, ActionPlan::CloseAll { browser: BrowserType::Chrome }));
}

#[test]
fn close_with_url_is_scoped_to_the_url() {
    let mut task = base_task();
    task.url = Some(String::from("https://example.com"));
    let r = plan_action(&task, ExecutionAction::Close).unwrap();
    match r {
        ActionPlan::CloseByUrl { browser, url } => {
            assert_eq!(browser, BrowserType::Chrome);
            assert_eq!(url, "https://example.com");
        }
        _ => panic!("expected a URL-scoped close"),
    }
}

#[test]
fn open_carries_url_and_profile() {
    let mut task = base_task();
    task.url = Some(String::from("https://example.com"));
    task.browser_profile = Some(String::from("Work Profile"));
    let r = plan_action(&task, ExecutionAction::Open).unwrap();
    match r {
        ActionPlan::OpenBrowser { browser, url, profile } => {
            assert_eq!(browser, BrowserType::Chrome);
            assert_eq!(url.as_deref(), Some("https://example.com"));
            assert_eq!(profile.as_deref(), Some("Work Profile"));
        }
        _ => panic!("expected an open"),
    }
}

#[test]
fn plan_rejects_bad_url_and_bad_profile() {
    let mut task = base_task();
    task.url = Some(String::from("javascript:alert(1)"));
    assert!(matches!(plan_action(&task, ExecutionAction::Open), Err(AppError::InvalidTask(_))));
    let mut task2 = base_task();
    task2.browser_profile = Some(String::from("../evil"));
    assert!(matches!(plan_action(&task2, ExecutionAction::Open), Err(AppError::InvalidTask(_))));
}

#[test]
fn one_shot_open_without_close_completes() {
    let task = base_task();
    let now = START + 1;
    let settled = settle_success(&task, ExecutionAction::Open, now).unwrap();
    assert_eq!(settled.status, TaskStatus::Completed);
    assert_eq!(settled.next_open_execution, None);
    assert_eq!(settled.last_open_execution, Some(now));
    assert_eq!(settled.execution_count, 1);
}

#[test]
fn one_shot_open_with_close_stays_active() {
    let mut task = base_task();
    task.close_time = Some(START + 5);
    task.next_close_execution = Some(START + 5);
    let now = START + 1;
    let settled = settle_success(&task, ExecutionAction::Open, now).unwrap();
    assert_eq!(settled.status, TaskStatus::Active);
    assert_eq!(settled.next_open_execution, None);
    assert_eq!(settled.next_close_execution, Some(START + 5));
}

#[test]
fn one_shot_open_with_cleared_close_cursor_completes() {
    // A close time whose cursor is already clear (it lay in the past
    // when the task was rescheduled): after the open nothing remains
    // scheduled, so the task must not stay active.
    let mut task = base_task();
    task.close_time = Some(START - 100);
    task.next_close_execution = None;
    let settled = settle_success(&task, ExecutionAction::Open, START).unwrap();
    assert_eq!(settled.status, TaskStatus::Completed);
    assert_eq!(settled.next_open_execution, None);
    assert_eq!(settled.next_close_execution, None);
}

#[test]
fn close_without_a_scheduled_open_completes_a_repeating_task() {
    // A repeating task whose open cursor is unset (its start lay in
    // the past when it was rescheduled): after the close nothing
    // remains scheduled, so the task must not stay active.
    let mut task = base_task();
    task.close_time = Some(START + 5);
    task.next_open_execution = None;
    task.next_close_execution = Some(START + 5);
    task.repeat_config = Some(RepeatConfig {
        interval: RepeatInterval::Daily,
        end_after: None,
        end_date: None,
    });
    let settled = settle_success(&task, ExecutionAction::Close, START + 5).unwrap();
    assert_eq!(settled.status, TaskStatus::Completed);
    assert_eq!(settled.next_close_execution, None);
    assert_eq!(settled.next_open_execution, None);
}

#[test]
fn one_shot_close_completes() {
    let mut task = base_task();
    task.close_time = Some(START + 5);
    task.next_open_execution = None;
    task.next_close_execution = Some(START + 5);
    let now = START + 6;
    let settled = settle_success(&task, ExecutionAction::Close, now).unwrap();
    assert_eq!(settled.status, TaskStatus::Completed);
    assert_eq!(settled.next_close_execution, None);
    assert_eq!(settled.last_close_execution, Some(now));
    assert_eq!(settled.execution_count, 0);
}

#[test]
fn repeating_open_preserves_a_pending_close() {
    let mut task = base_task();
    task.close_time = Some(START + 5);
    task.next_close_execution = Some(START + 5);
    task.repeat_config = Some(RepeatConfig {
        interval: RepeatInterval::Daily,
        end_after: None,
        end_date: None,
    });
    let now = START + 1;
    let settled = settle_success(&task, ExecutionAction::Open, now).unwrap();
    assert_eq!(settled.status, TaskStatus::Active);
    assert_eq!(settled.next_open_execution, Some(START + 86400));
    // The first close is still owed; the open must not push it away.
    assert_eq!(settled.next_close_execution, Some(START + 5));
    assert_eq!(settled.execution_count, 1);
}

#[test]
fn repeating_open_schedules_the_close_of_its_own_cycle() {
    // The previous close already fired, so no close is pending; the
    // open schedules its own cycle's close at its due time plus the
    // open-to-close offset.
    let mut task = base_task();
    task.close_time = Some(START + 5);
    task.next_open_execution = Some(START + 86400);
    task.next_close_execution = None;
    task.repeat_config = Some(RepeatConfig {
        interval: RepeatInterval::Daily,
        end_after: None,
        end_date: None,
    });
    let now = START + 86400;
    let settled = settle_success(&task, ExecutionAction::Open, now).unwrap();
    assert_eq!(settled.status, TaskStatus::Active);
    assert_eq!(settled.next_close_execution, Some(START + 86400 + 5));
}

#[test]
fn repeating_open_with_unrepresentable_close_fails() {
    let mut task = base_task();
    task.close_time = Some(START + 5);
    task.next_open_execution = Some(i64::MAX - 1);
    task.next_close_execution = None;
    task.repeat_config = Some(RepeatConfig {
        interval: RepeatInterval::Daily,
        end_after: None,
        end_date: None,
    });
    let r = settle_success(&task, ExecutionAction::Open, START);
    assert!(matches!(r, Err(AppError::TimeParse(_))));
}

#[test]
fn repeating_close_clears_only_the_close_cursor() {
    let mut task = base_task();
    task.close_time = Some(START + 5);
    task.next_open_execution = Some(START + 86400);
    task.next_close_execution = Some(START + 5);
    task.repeat_config = Some(RepeatConfig {
        interval: RepeatInterval::Daily,
        end_after: None,
        end_date: None,
    });
    let now = START + 6;
    let settled = settle_success(&task, ExecutionAction::Close, now).unwrap();
    assert_eq!(settled.status, TaskStatus::Active);
    assert_eq!(settled.next_open_execution, Some(START + 86400));
    assert_eq!(settled.next_close_execution, None);
}

#[test]
fn end_after_three_completes_exactly_after_third_open() {
    let mut task = base_task();
    task.repeat_config = Some(RepeatConfig {
        interval: RepeatInterval::Daily,
        end_after: Some(3),
        end_date: None,
    });

    // First open: 1 < 3, continues.
    let after_first = settle_success(&task, ExecutionAction::Open, START).unwrap();
    assert_eq!(after_first.status, TaskStatus::Active);
    assert_eq!(after_first.execution_count, 1);
    assert!(after_first.next_open_execution.is_some());

    // Second open: 2 < 3, continues.
    let after_second = settle_success(&after_first, ExecutionAction::Open, START + 86400).unwrap();
    assert_eq!(after_second.status, TaskStatus::Active);
    assert_eq!(after_second.execution_count, 2);
    assert!(after_second.next_open_execution.is_some());

    // Third open: 3 == 3, completes and both cursors clear.
    let after_third =
        settle_success(&after_second, ExecutionAction::Open, START + 2 * 86400).unwrap();
    assert_eq!(after_third.status, TaskStatus::Completed);
    assert_eq!(after_third.execution_count, 3);
    assert_eq!(after_third.next_open_execution, None);
    assert_eq!(after_third.next_close_execution, None);
}

#[test]
fn end_date_stops_once_next_occurrence_reaches_it() {
    // Next occurrence is START + 1 day.  An end date beyond it lets
    // the task continue; an end date at exactly the next occurrence
    // stops it (the next occurrence must be strictly before the end).
    let mut continuing = base_task();
    continuing.repeat_config = Some(RepeatConfig {
        interval: RepeatInterval::Daily,
        end_after: None,
        end_date: Some(START + 2 * 86400),
    });
    let settled = settle_success(&continuing, ExecutionAction::Open, START).unwrap();
    assert_eq!(settled.status, TaskStatus::Active);
    assert_eq!(settled.next_open_execution, Some(START + 86400));

    let mut stopping = base_task();
    stopping.repeat_config = Some(RepeatConfig {
        interval: RepeatInterval::Daily,
        end_after: None,
        end_date: Some(START + 86400),
    });
    let settled2 = settle_success(&stopping, ExecutionAction::Open, START).unwrap();
    assert_eq!(settled2.status, TaskStatus::Completed);
    assert_eq!(settled2.next_open_execution, None);
    assert_eq!(settled2.next_close_execution, None);
}

#[test]
fn end_after_takes_priority_over_end_date() {
    let config = RepeatConfig {
        interval: RepeatInterval::Daily,
        end_after: Some(5),
        end_date: Some(0),
    };
    // end_date alone would stop; end_after wins and continues.
    assert!(should_continue_repeating(&config, 1, 100));
    assert!(!should_continue_repeating(&config, 5, 100));
}

#[test]
fn repeating_open_with_bad_timezone_fails_with_time_parse() {
    let mut task = base_task();
    task.timezone = String::from("Invalid/Zone");
    task.repeat_config = Some(RepeatConfig {
        interval: RepeatInterval::Daily,
        end_after: None,
        end_date: None,
    });
    let r = settle_success(&task, ExecutionAction::Open, START);
    assert!(matches!(r, Err(AppError::TimeParse(_))));
}

#[test]
fn failure_marks_the_task_failed_and_nothing_else() {
    let mut task = base_task();
    task.next_open_execution = Some(START);
    let failed = settle_failure(&task);
    assert_eq!(failed.status, TaskStatus::Failed);
    assert_eq!(failed.next_open_execution, Some(START));
    assert_eq!(failed.execution_count, 0);
    assert_eq!(failed.name, "demo");
}
