use do_in_time::get_next_action;
use do_in_time::BrowserType;
use do_in_time::ExecutionAction;
use do_in_time::Task;
use do_in_time::TaskStatus;

fn task_with_cursors(
    name: &str,
    status: TaskStatus,
    open: Option<i64>,
    close: Option<i64>,
) -> Task {
    let mut t = Task::new(
        String::from(name),
        BrowserType::Firefox,
        1000,
        String::from("UTC"),
    );
    t.status = status;
    t.next_open_execution = open;
    t.next_close_execution = close;
    t
}

#[test]
fn empty_store_selects_nothing() {
    let tasks: Vec<Task> = Vec::new();
    assert!(get_next_action(&tasks).is_none());
}

#[test]
fn only_active_tasks_with_a_cursor_are_selected() {
    let tasks = vec![
        task_with_cursors("done", TaskStatus::Completed, Some(10), None),
        task_with_cursors("failed", TaskStatus::Failed, Some(5), None),
        task_with_cursors("cursorless", TaskStatus::Active, None, None),
    ];
    assert!(get_next_action(&tasks).is_none());
}

#[test]
fn earliest_due_task_wins() {
    let tasks = vec![
        task_with_cursors("late", TaskStatus::Active, Some(500), None),
        task_with_cursors("early", TaskStatus::Active, Some(100), None),
        task_with_cursors("middle", TaskStatus::Active, None, Some(300)),
    ];
    let (i, a) = get_next_action(&tasks).unwrap();
    assert_eq!(i, 1);
    assert_eq!(a, ExecutionAction::Open);
}

#[test]
fn close_cursor_can_be_the_due_action() {
    let tasks = vec![task_with_cursors("c", TaskStatus::Active, Some(500), Some(100))];
    let (i, a) = get_next_action(&tasks).unwrap();
    assert_eq!(i, 0);
    assert_eq!(a, ExecutionAction::Close);
}

#[test]
fn equal_cursors_prefer_open() {
    let tasks = vec![task_with_cursors("tie", TaskStatus::Active, Some(100), Some(100))];
    let (_, a) = get_next_action(&tasks).unwrap();
    assert_eq!(a, ExecutionAction::Open);
}

#[test]
fn tie_between_tasks_selects_the_first() {
    let tasks = vec![
        task_with_cursors("first", TaskStatus::Active, Some(100), None),
        task_with_cursors("second", TaskStatus::Active, Some(100), None),
    ];
    let (i, _) = get_next_action(&tasks).unwrap();
    assert_eq!(i, 0);
}

#[test]
fn repeated_queries_agree_and_reflect_mutations() {
    let mut tasks = vec![
        task_with_cursors("a", TaskStatus::Active, Some(200), None),
        task_with_cursors("b", TaskStatus::Active, Some(300), None),
    ];
    let first = get_next_action(&tasks);
    let second = get_next_action(&tasks);
    assert_eq!(first, second);
    assert_eq!(first.unwrap().0, 0);

    // A mutation between calls is reflected: no stale caching.
    tasks[1].next_open_execution = Some(50);
    let third = get_next_action(&tasks);
    assert_eq!(third.unwrap().0, 1);

    // Deleting the due task is reflected too.
    tasks.remove(1);
    let fourth = get_next_action(&tasks);
    assert_eq!(fourth.unwrap().0, 0);
}
