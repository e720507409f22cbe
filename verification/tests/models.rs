use task_cli::models::{Task, TaskStatus};

#[test]
fn status_keys_select_the_four_statuses() {
    assert_eq!(TaskStatus::from_key('1'), Some(TaskStatus::Todo));
    assert_eq!(TaskStatus::from_key('2'), Some(TaskStatus::InProgress));
    assert_eq!(TaskStatus::from_key('3'), Some(TaskStatus::Blocked));
    assert_eq!(TaskStatus::from_key('4'), Some(TaskStatus::Done));
}

#[test]
fn other_keys_select_no_status() {
    assert_eq!(TaskStatus::from_key('0'), None);
    assert_eq!(TaskStatus::from_key('5'), None);
    assert_eq!(TaskStatus::from_key('a'), None);
    assert_eq!(TaskStatus::from_key(' '), None);
    assert_eq!(TaskStatus::from_key('\u{661}'), None);
}

#[test]
fn new_task_keeps_status_and_description() {
    let task = Task::new(TaskStatus::Blocked, String::from("wait for the plumber"));
    assert_eq!(task.status, TaskStatus::Blocked);
    assert_eq!(task.description, "wait for the plumber");
}

#[test]
fn new_task_accepts_an_empty_description() {
    let task = Task::new(TaskStatus::Todo, String::new());
    assert_eq!(task.description, "");
    assert_ne!(task.id, 0);
}

#[test]
fn new_task_has_a_random_identifier() {
    let task = Task::new(TaskStatus::Todo, String::from("buy milk"));
    assert_ne!(task.id, 0);
    assert_eq!((task.id >> 76) & 0xf, 4);
    assert_eq!((task.id >> 62) & 0x3, 2);
}

#[test]
fn new_tasks_differ_in_their_identifiers() {
    let first = Task::new(TaskStatus::Todo, String::from("a"));
    let second = Task::new(TaskStatus::Todo, String::from("a"));
    assert_ne!(first.id, second.id);
}

#[test]
fn identifier_is_written_in_hyphenated_lower_case() {
    let task = Task {
        id: 0xa1a2a3a4b1b2c1c2d1d2d3d4d5d6d7d8,
        status: TaskStatus::Todo,
        description: String::new(),
    };
    assert_eq!(task.id_string(), "a1a2a3a4-b1b2-c1c2-d1d2-d3d4d5d6d7d8");
}

#[test]
fn zero_identifier_is_written_with_all_its_digits() {
    let task = Task { id: 0, status: TaskStatus::Done, description: String::new() };
    assert_eq!(task.id_string(), "00000000-0000-0000-0000-000000000000");
}

#[test]
fn small_and_large_identifiers_are_written_in_full() {
    let small = Task { id: 0x1f, status: TaskStatus::Done, description: String::new() };
    assert_eq!(small.id_string(), "00000000-0000-0000-0000-00000000001f");
    let large = Task { id: u128::MAX, status: TaskStatus::Done, description: String::new() };
    assert_eq!(large.id_string(), "ffffffff-ffff-ffff-ffff-ffffffffffff");
    let mixed = Task {
        id: 0x0123456789abcdef0fedcba987654321,
        status: TaskStatus::Done,
        description: String::new(),
    };
    assert_eq!(mixed.id_string(), "01234567-89ab-cdef-0fed-cba987654321");
}

#[test]
fn identifier_text_agrees_with_the_uuid_crate() {
    let task = Task::new(TaskStatus::Todo, String::from("x"));
    let text = task.id_string();
    assert_eq!(text.len(), 36);
    assert_eq!(uuid::Uuid::parse_str(&text).map(|id| id.as_u128()), Ok(task.id));
}

#[test]
fn clone_copies_every_field() {
    let task = Task { id: 42, status: TaskStatus::InProgress, description: String::from("x y") };
    let copy = task.clone();
    assert_eq!(copy, task);
}
