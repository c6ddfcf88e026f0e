use do_in_time::prepare_task_for_create;
use do_in_time::prepare_task_for_update;
use do_in_time::AppError;
use do_in_time::BrowserType;
use do_in_time::Task;
use do_in_time::TaskStatus;

const START: i64 = 1_000_000;

fn raw_task() -> Task {
    let mut t = Task::new(
        String::from("t"),
        BrowserType::Edge,
        START,
        String::from("UTC"),
    );
    // As a caller would hand it in: no cursors decided yet.
    t.next_open_execution = None;
    t.next_close_execution = None;
    t
}

#[test]
fn create_stamps_and_defaults_the_cursors() {
    let now = 500;
    let t = prepare_task_for_create(raw_task(), now).unwrap();
    assert_eq!(t.created_at, now);
    assert_eq!(t.updated_at, now);
    assert_eq!(t.next_open_execution, Some(START));
    assert_eq!(t.next_close_execution, None);
}

#[test]
fn create_defaults_the_close_cursor_from_the_close_time() {
    let mut task = raw_task();
    task.close_time = Some(START + 60);
    let t = prepare_task_for_create(task, 500).unwrap();
    assert_eq!(t.next_close_execution, Some(START + 60));
}

#[test]
fn create_keeps_cursors_that_are_already_set() {
    let mut task = raw_task();
    task.next_open_execution = Some(START + 7);
    let t = prepare_task_for_create(task, 500).unwrap();
    assert_eq!(t.next_open_execution, Some(START + 7));
}

#[test]
fn create_rejects_invalid_url_and_profile() {
    let mut task = raw_task();
    task.url = Some(String::from("file:///etc/passwd"));
    assert!(matches!(prepare_task_for_create(task, 500), Err(AppError::InvalidTask(_))));
    let mut task2 = raw_task();
    task2.browser_profile = Some(String::from("a/b"));
    assert!(matches!(prepare_task_for_create(task2, 500), Err(AppError::InvalidTask(_))));
}

#[test]
fn update_without_time_change_only_stamps() {
    let old = prepare_task_for_create(raw_task(), 500).unwrap();
    let mut edited = old.clone();
    edited.name = String::from("renamed");
    let t = prepare_task_for_update(&old, edited, 600).unwrap();
    assert_eq!(t.updated_at, 600);
    assert_eq!(t.name, "renamed");
    assert_eq!(t.status, TaskStatus::Active);
    assert_eq!(t.next_open_execution, Some(START));
}

#[test]
fn update_with_future_start_recomputes_the_open_cursor() {
    let old = prepare_task_for_create(raw_task(), 500).unwrap();
    let mut edited = old.clone();
    edited.start_time = START + 100;
    let now = START;
    let t = prepare_task_for_update(&old, edited, now).unwrap();
    assert_eq!(t.next_open_execution, Some(START + 100));
    assert_eq!(t.next_close_execution, None);
}

#[test]
fn update_with_past_start_clears_the_open_cursor() {
    let old = prepare_task_for_create(raw_task(), 500).unwrap();
    let mut edited = old.clone();
    edited.start_time = START - 100;
    let now = START;
    let t = prepare_task_for_update(&old, edited, now).unwrap();
    assert_eq!(t.next_open_execution, None);
}

#[test]
fn update_reactivates_a_finished_task_when_times_change() {
    let old = prepare_task_for_create(raw_task(), 500).unwrap();
    let mut edited = old.clone();
    edited.status = TaskStatus::Completed;
    edited.last_open_execution = Some(400);
    edited.start_time = START + 100;
    let t = prepare_task_for_update(&old, edited, START).unwrap();
    assert_eq!(t.status, TaskStatus::Active);
    assert_eq!(t.last_open_execution, None);
    assert_eq!(t.last_close_execution, None);
    assert_eq!(t.next_open_execution, Some(START + 100));

    // Without a time change a completed task stays completed.
    let mut edited2 = old.clone();
    edited2.status = TaskStatus::Failed;
    let t2 = prepare_task_for_update(&old, edited2, START).unwrap();
    assert_eq!(t2.status, TaskStatus::Failed);
}

#[test]
fn update_recomputes_the_close_cursor_from_the_close_time() {
    let old = prepare_task_for_create(raw_task(), 500).unwrap();
    let mut edited = old.clone();
    edited.close_time = Some(START + 300);
    let t = prepare_task_for_update(&old, edited, START).unwrap();
    assert_eq!(t.next_close_execution, Some(START + 300));

    let mut edited2 = old.clone();
    edited2.close_time = Some(START - 1);
    let t2 = prepare_task_for_update(&old, edited2, START).unwrap();
    assert_eq!(t2.next_close_execution, None);
}
