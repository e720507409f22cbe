use task_cli::models::{Task, TaskStatus};
use task_cli::storage::{
    copy_tasks, find_task, remove_from, update_in, Backing, FileStorage, MemoryStorage, StoreError,
    TaskStorage,
};

fn task(id: u128, status: TaskStatus, description: &str) -> Task {
    Task { id, status, description: String::from(description) }
}

fn three() -> Vec<Task> {
    vec![
        task(1, TaskStatus::Todo, "first"),
        task(2, TaskStatus::InProgress, "second"),
        task(3, TaskStatus::Blocked, "third"),
    ]
}

const ONE: &str = "00000000-0000-0000-0000-000000000001";
const TWO: &str = "00000000-0000-0000-0000-000000000002";
const THREE: &str = "00000000-0000-0000-0000-000000000003";
const NINE: &str = "00000000-0000-0000-0000-000000000009";

fn files() -> FileStorage {
    FileStorage {
        qualifier: String::from("com"),
        organization: String::from("example"),
        application: String::from("tasks"),
        data_file_name: String::from("tasks.json"),
    }
}

#[test]
fn find_gives_the_place_of_the_task() {
    let tasks = three();
    assert_eq!(find_task(&tasks, ONE), Some(0));
    assert_eq!(find_task(&tasks, TWO), Some(1));
    assert_eq!(find_task(&tasks, THREE), Some(2));
}

#[test]
fn find_gives_nothing_for_an_absent_id() {
    assert_eq!(find_task(&three(), NINE), None);
    assert_eq!(find_task(&Vec::new(), ONE), None);
}

#[test]
fn find_matches_the_written_form_exactly() {
    let tasks = vec![task(0xab, TaskStatus::Todo, "x")];
    assert_eq!(find_task(&tasks, "00000000-0000-0000-0000-0000000000ab"), Some(0));
    assert_eq!(find_task(&tasks, "00000000-0000-0000-0000-0000000000AB"), None);
    assert_eq!(find_task(&tasks, "000000000000000000000000000000ab"), None);
    assert_eq!(find_task(&tasks, " 00000000-0000-0000-0000-0000000000ab"), None);
    assert_eq!(find_task(&tasks, ""), None);
}

#[test]
fn find_gives_the_first_of_two_tasks_with_one_id() {
    let tasks = vec![
        task(5, TaskStatus::Todo, "a"),
        task(7, TaskStatus::Todo, "b"),
        task(7, TaskStatus::Done, "c"),
    ];
    assert_eq!(find_task(&tasks, "00000000-0000-0000-0000-000000000007"), Some(1));
}

#[test]
fn remove_takes_out_one_task_and_keeps_the_order() {
    let mut tasks = three();
    assert_eq!(remove_from(&mut tasks, TWO), Ok(()));
    assert_eq!(
        tasks,
        vec![task(1, TaskStatus::Todo, "first"), task(3, TaskStatus::Blocked, "third")]
    );
}

#[test]
fn remove_of_the_only_task_leaves_nothing() {
    let mut tasks = vec![task(1, TaskStatus::Todo, "first")];
    assert_eq!(remove_from(&mut tasks, ONE), Ok(()));
    assert!(tasks.is_empty());
}

#[test]
fn remove_of_an_absent_id_is_not_found_and_changes_nothing() {
    let mut tasks = three();
    assert_eq!(remove_from(&mut tasks, NINE), Err(StoreError::NotFound));
    assert_eq!(tasks, three());
}

#[test]
fn remove_takes_only_the_first_of_two_tasks_with_one_id() {
    let mut tasks = vec![
        task(7, TaskStatus::Todo, "b"),
        task(5, TaskStatus::Todo, "a"),
        task(7, TaskStatus::Done, "c"),
    ];
    assert_eq!(remove_from(&mut tasks, "00000000-0000-0000-0000-000000000007"), Ok(()));
    assert_eq!(tasks, vec![task(5, TaskStatus::Todo, "a"), task(7, TaskStatus::Done, "c")]);
}

#[test]
fn update_replaces_status_and_description_in_place() {
    let mut tasks = three();
    assert_eq!(update_in(&mut tasks, TWO, TaskStatus::Done, "second, done"), Ok(()));
    assert_eq!(
        tasks,
        vec![
            task(1, TaskStatus::Todo, "first"),
            task(2, TaskStatus::Done, "second, done"),
            task(3, TaskStatus::Blocked, "third"),
        ]
    );
}

#[test]
fn update_of_an_absent_id_is_not_found_and_changes_nothing() {
    let mut tasks = three();
    assert_eq!(
        update_in(&mut tasks, NINE, TaskStatus::Done, "nothing"),
        Err(StoreError::NotFound)
    );
    assert_eq!(tasks, three());
}

#[test]
fn update_accepts_an_empty_description() {
    let mut tasks = three();
    assert_eq!(update_in(&mut tasks, THREE, TaskStatus::Todo, ""), Ok(()));
    assert_eq!(tasks[2], task(3, TaskStatus::Todo, ""));
}

#[test]
fn copy_is_the_same_collection() {
    assert_eq!(copy_tasks(&three()), three());
    assert_eq!(copy_tasks(&Vec::new()), Vec::new());
}

#[test]
fn memory_store_starts_empty() {
    let store = MemoryStorage::new();
    assert_eq!(store.load_tasks(), Ok(Vec::new()));
}

#[test]
fn memory_store_lists_what_was_written_in_order() {
    let mut store = MemoryStorage::new();
    for written in three() {
        assert_eq!(store.write_task(written), Ok(()));
    }
    assert_eq!(store.load_tasks(), Ok(three()));
}

#[test]
fn memory_store_takes_a_second_task_with_the_same_id() {
    let mut store = MemoryStorage::new();
    assert_eq!(store.write_task(task(1, TaskStatus::Todo, "a")), Ok(()));
    assert_eq!(store.write_task(task(1, TaskStatus::Done, "b")), Ok(()));
    assert_eq!(
        store.load_tasks(),
        Ok(vec![task(1, TaskStatus::Todo, "a"), task(1, TaskStatus::Done, "b")])
    );
}

#[test]
fn memory_store_removes_and_updates_by_id() {
    let mut store = MemoryStorage { tasks: three() };
    assert_eq!(store.update_task(ONE, TaskStatus::Done, "first, done"), Ok(()));
    assert_eq!(store.remove_task(THREE), Ok(()));
    assert_eq!(
        store.load_tasks(),
        Ok(vec![
            task(1, TaskStatus::Done, "first, done"),
            task(2, TaskStatus::InProgress, "second"),
        ])
    );
}

#[test]
fn memory_store_reports_an_absent_id() {
    let mut store = MemoryStorage { tasks: three() };
    assert_eq!(store.remove_task(NINE), Err(StoreError::NotFound));
    assert_eq!(store.update_task(NINE, TaskStatus::Done, "x"), Err(StoreError::NotFound));
    assert_eq!(store.load_tasks(), Ok(three()));
}

#[test]
fn removing_an_unused_id_from_an_empty_store_is_not_found() {
    let mut store = MemoryStorage::new();
    let unused = Task::new(TaskStatus::Todo, String::from("never stored")).id_string();
    assert_eq!(store.remove_task(&unused), Err(StoreError::NotFound));
    assert_eq!(store.load_tasks(), Ok(Vec::new()));
}

#[test]
fn loading_is_a_copy_of_the_store() {
    let store = MemoryStorage { tasks: three() };
    let mut loaded = store.load_tasks().unwrap();
    loaded.clear();
    assert_eq!(store.load_tasks(), Ok(three()));
}

#[test]
fn missing_backing_file_is_an_empty_collection() {
    assert_eq!(files().load_tasks(Backing::Missing), Vec::new());
}

#[test]
fn malformed_backing_file_is_an_empty_collection() {
    assert_eq!(files().load_tasks(Backing::Malformed), Vec::new());
}

#[test]
fn backing_file_gives_its_tasks_in_order() {
    assert_eq!(files().load_tasks(Backing::Holding(three())), three());
    assert_eq!(files().load_tasks(Backing::Holding(Vec::new())), Vec::new());
}

#[test]
fn store_errors_are_put_in_words() {
    assert_eq!(StoreError::NotFound.message(), "No item with specified id found");
    assert_eq!(StoreError::Io(String::from("disk full")).message(), "disk full");
    assert_eq!(StoreError::Io(String::new()).message(), "");
}
