//! The store of tasks: an ordered collection in which a task is found by
//! the written form of its identifier.

use crate::models::{views, Task, TaskStatus, TaskView};
use crate::utils::id_text;
use vstd::prelude::*;

verus! {

/// Why a store could not do what it was asked.
#[derive(Debug, PartialEq, Eq)]
pub enum StoreError {
    /// No task of the collection is written as the identifier asked for.
    NotFound,
    /// The backing of the store could not be read or written.
    Io(String),
}

impl StoreError {
    /// The error in words, for showing to the user.
    pub fn message(&self) -> (text: String)
        ensures
            self is NotFound ==> text@ == "No item with specified id found"@,
            self matches StoreError::Io(reason) ==> text@ == reason@,
    {
        match self {
            StoreError::NotFound => "No item with specified id found".to_owned(),
            StoreError::Io(reason) => reason.clone(),
        }
    }
}

/// Whether some task of `tasks` is written as `id`.
pub open spec fn has_id(tasks: Seq<TaskView>, id: Seq<char>) -> bool {
    exists|index: int| 0 <= index < tasks.len() && id_text((#[trigger] tasks[index]).id) == id
}

/// Whether the task at `index` is the first of `tasks` that is written as `id`.
pub open spec fn is_first_match(tasks: Seq<TaskView>, id: Seq<char>, index: int) -> bool {
    &&& 0 <= index < tasks.len()
    &&& id_text(tasks[index].id) == id
    &&& forall|earlier: int|
        0 <= earlier < index ==> id_text((#[trigger] tasks[earlier]).id) != id
}

/// The place of the first task of `tasks` that is written as `id`, if there
/// is one.
pub open spec fn position(tasks: Seq<TaskView>, id: Seq<char>) -> Option<int> {
    if has_id(tasks, id) {
        Some(choose|index: int| is_first_match(tasks, id, index))
    } else {
        None
    }
}

/// The collection without the first task written as `id`; `None` where no
/// task is written so.
pub open spec fn removed(tasks: Seq<TaskView>, id: Seq<char>) -> Option<Seq<TaskView>> {
    match position(tasks, id) {
        Some(index) => Some(tasks.remove(index)),
        None => None,
    }
}

/// The collection in which the first task written as `id` has the given
/// status and description, and keeps its identifier and its place; `None`
/// where no task is written so.
pub open spec fn updated(
    tasks: Seq<TaskView>,
    id: Seq<char>,
    status: TaskStatus,
    description: Seq<char>,
) -> Option<Seq<TaskView>> {
    match position(tasks, id) {
        Some(index) => Some(
            tasks.update(index, TaskView { id: tasks[index].id, status, description }),
        ),
        None => None,
    }
}

/// Among the tasks before a task written as `id` there is a first one
/// written so, or that task is itself the first.
proof fn lemma_first_match_exists(tasks: Seq<TaskView>, id: Seq<char>, index: int)
    requires
        0 <= index < tasks.len(),
        id_text(tasks[index].id) == id,
    ensures
        exists|first: int| is_first_match(tasks, id, first),
    decreases index,
{
    if exists|earlier: int| 0 <= earlier < index && id_text((#[trigger] tasks[earlier]).id) == id {
        let earlier = choose|earlier: int|
            0 <= earlier < index && id_text((#[trigger] tasks[earlier]).id) == id;
        lemma_first_match_exists(tasks, id, earlier);
    } else {
        assert(is_first_match(tasks, id, index));
    }
}

/// `position` gives the first match where there is one, and nothing where
/// no task is written as `id`.
pub proof fn lemma_position(tasks: Seq<TaskView>, id: Seq<char>)
    ensures
        position(tasks, id) matches Some(index) ==> is_first_match(tasks, id, index),
        position(tasks, id) is None ==> (forall|index: int|
            0 <= index < tasks.len() ==> id_text((#[trigger] tasks[index]).id) != id),
        forall|index: int| is_first_match(tasks, id, index) ==> position(tasks, id) == Some(index),
{
    if has_id(tasks, id) {
        let witness = choose|index: int|
            0 <= index < tasks.len() && id_text((#[trigger] tasks[index]).id) == id;
        lemma_first_match_exists(tasks, id, witness);
        let first = choose|index: int| is_first_match(tasks, id, index);
        assert forall|index: int| is_first_match(tasks, id, index) implies index == first by {
            if index < first {
                assert(id_text(tasks[index].id) != id);
            } else if first < index {
                assert(id_text(tasks[first].id) != id);
            }
        }
    } else {
        assert forall|index: int| !is_first_match(tasks, id, index) by {
            if 0 <= index < tasks.len() {
                assert(id_text(tasks[index].id) != id);
            }
        }
    }
}

/// Whether no two tasks of `tasks` have the same identifier.
pub open spec fn distinct_ids(tasks: Seq<TaskView>) -> bool {
    forall|first: int, second: int|
        0 <= first < second < tasks.len() ==> (#[trigger] tasks[first]).id != (
        #[trigger] tasks[second]).id
}

/// The collection after each task of `tasks` was added to `before`, one
/// after the other in their order.
pub open spec fn written(before: Seq<TaskView>, tasks: Seq<TaskView>) -> Seq<TaskView>
    decreases tasks.len(),
{
    if tasks.len() == 0 {
        before
    } else {
        written(before, tasks.drop_last()).push(tasks.last())
    }
}

/// Removing by an identifier that some task is written as takes out the
/// first such task and nothing else: the collection is one shorter, and the
/// other tasks are what they were, in their order.
pub proof fn lemma_remove_present(tasks: Seq<TaskView>, id: Seq<char>)
    requires
        has_id(tasks, id),
    ensures
        ({
            &&& removed(tasks, id) matches Some(rest)
            &&& position(tasks, id) matches Some(index)
            &&& is_first_match(tasks, id, index)
            &&& rest == tasks.remove(index)
            &&& rest.len() == tasks.len() - 1
            &&& forall|at: int| 0 <= at < index ==> rest[at] == tasks[at]
            &&& forall|at: int| index <= at < rest.len() ==> rest[at] == tasks[at + 1]
        }),
{
    lemma_position(tasks, id);
}

/// Removing the only task of a collection by its identifier leaves the
/// empty collection.
pub proof fn lemma_remove_only_task(task: TaskView)
    ensures
        removed(seq![task], id_text(task.id)) == Some(Seq::<TaskView>::empty()),
{
    let tasks = seq![task];
    let id = id_text(task.id);
    assert(is_first_match(tasks, id, 0));
    lemma_position(tasks, id);
    assert(tasks.remove(0) =~= Seq::<TaskView>::empty());
}

/// By an identifier that no task is written as, nothing is removed and
/// nothing is updated.
pub proof fn lemma_absent_id(
    tasks: Seq<TaskView>,
    id: Seq<char>,
    status: TaskStatus,
    description: Seq<char>,
)
    requires
        !has_id(tasks, id),
    ensures
        removed(tasks, id) is None,
        updated(tasks, id, status, description) is None,
{
}

/// Updating by an identifier that some task is written as changes the
/// status and the description of the first such task and nothing else: that
/// task keeps its identifier and its place, the collection its length, and
/// every other task is what it was.
pub proof fn lemma_update_present(
    tasks: Seq<TaskView>,
    id: Seq<char>,
    status: TaskStatus,
    description: Seq<char>,
)
    requires
        has_id(tasks, id),
    ensures
        ({
            &&& updated(tasks, id, status, description) matches Some(changed)
            &&& position(tasks, id) matches Some(index)
            &&& is_first_match(tasks, id, index)
            &&& changed.len() == tasks.len()
            &&& changed[index].id == tasks[index].id
            &&& changed[index].status == status
            &&& changed[index].description == description
            &&& forall|at: int| 0 <= at < tasks.len() && at != index ==> changed[at] == tasks[at]
            &&& position(changed, id) == Some(index)
        }),
{
    lemma_position(tasks, id);
    let index = position(tasks, id)->Some_0;
    let changed = updated(tasks, id, status, description)->Some_0;
    assert(is_first_match(changed, id, index));
    lemma_position(changed, id);
}

/// Tasks added one after the other stand behind what the store held, in the
/// order in which they were added and with the values they had; added to a
/// store that held nothing, they are the whole collection.
pub proof fn lemma_written_in_order(before: Seq<TaskView>, tasks: Seq<TaskView>)
    ensures
        written(before, tasks) == before + tasks,
        written(Seq::empty(), tasks) == tasks,
    decreases tasks.len(),
{
    if tasks.len() == 0 {
        assert(before + tasks =~= before);
        assert(written(Seq::empty(), tasks) =~= tasks);
    } else {
        lemma_written_in_order(before, tasks.drop_last());
        lemma_written_in_order(Seq::empty(), tasks.drop_last());
        assert((before + tasks.drop_last()).push(tasks.last()) =~= before + tasks);
        assert(tasks.drop_last().push(tasks.last()) =~= tasks);
    }
}

/// A collection without two tasks of one identifier stays so when a task is
/// removed.
pub proof fn lemma_remove_keeps_distinct(tasks: Seq<TaskView>, id: Seq<char>)
    requires
        distinct_ids(tasks),
    ensures
        removed(tasks, id) matches Some(rest) ==> distinct_ids(rest),
{
    if has_id(tasks, id) {
        lemma_remove_present(tasks, id);
        let rest = removed(tasks, id)->Some_0;
        let index = position(tasks, id)->Some_0;
        assert forall|first: int, second: int| 0 <= first < second < rest.len() implies (
        #[trigger] rest[first]).id != (#[trigger] rest[second]).id by {
            let was_first = if first < index { first } else { first + 1 };
            let was_second = if second < index { second } else { second + 1 };
            assert(rest[first] == tasks[was_first]);
            assert(rest[second] == tasks[was_second]);
        }
    }
}

/// A collection without two tasks of one identifier stays so when a task is
/// updated.
pub proof fn lemma_update_keeps_distinct(
    tasks: Seq<TaskView>,
    id: Seq<char>,
    status: TaskStatus,
    description: Seq<char>,
)
    requires
        distinct_ids(tasks),
    ensures
        updated(tasks, id, status, description) matches Some(changed) ==> distinct_ids(changed),
{
    if has_id(tasks, id) {
        lemma_update_present(tasks, id, status, description);
        let changed = updated(tasks, id, status, description)->Some_0;
        assert forall|first: int, second: int| 0 <= first < second < changed.len() implies (
        #[trigger] changed[first]).id != (#[trigger] changed[second]).id by {
            assert(changed[first].id == tasks[first].id);
            assert(changed[second].id == tasks[second].id);
        }
    }
}

/// A collection without two tasks of one identifier stays so when a task is
/// added whose identifier no task of the collection has.
pub proof fn lemma_write_keeps_distinct(tasks: Seq<TaskView>, task: TaskView)
    requires
        distinct_ids(tasks),
        forall|at: int| 0 <= at < tasks.len() ==> (#[trigger] tasks[at]).id != task.id,
    ensures
        distinct_ids(tasks.push(task)),
{
    let longer = tasks.push(task);
    assert forall|first: int, second: int| 0 <= first < second < longer.len() implies (
    #[trigger] longer[first]).id != (#[trigger] longer[second]).id by {
        assert(longer[first] == tasks[first]);
        if second < tasks.len() {
            assert(longer[second] == tasks[second]);
        }
    }
}

/// Looks for the first task written as `id`.
pub fn find_task(tasks: &Vec<Task>, id: &str) -> (found: Option<usize>)
    ensures
        found matches Some(index) ==> index < tasks.len() && position(views(tasks@), id@) == Some(
            index as int,
        ),
        found is None ==> position(views(tasks@), id@) is None,
{
    let wanted = id.to_owned();
    let mut index: usize = 0;
    while index < tasks.len()
        invariant
            index <= tasks.len(),
            wanted@ == id@,
            forall|earlier: int|
                0 <= earlier < index ==> id_text((#[trigger] views(tasks@)[earlier]).id) != id@,
        decreases tasks.len() - index,
    {
        let text = tasks[index].id_string();
        if text == wanted {
            proof {
                assert(views(tasks@)[index as int] == tasks@[index as int]@);
                assert(is_first_match(views(tasks@), id@, index as int));
                lemma_position(views(tasks@), id@);
            }
            return Some(index);
        }
        proof {
            assert(views(tasks@)[index as int] == tasks@[index as int]@);
        }
        index += 1;
    }
    proof {
        lemma_position(views(tasks@), id@);
        assert(!has_id(views(tasks@), id@));
    }
    None
}

/// Takes the first task written as `id` out of the collection.
pub fn remove_from(tasks: &mut Vec<Task>, id: &str) -> (result: Result<(), StoreError>)
    ensures
        removed(views(old(tasks)@), id@) matches Some(rest) ==> result is Ok && views(
            final(tasks)@,
        ) == rest,
        removed(views(old(tasks)@), id@) is None ==> result == Err::<(), StoreError>(
            StoreError::NotFound,
        ) && final(tasks)@ == old(tasks)@,
{
    match find_task(tasks, id) {
        Some(index) => {
            tasks.remove(index);
            assert(views(tasks@) =~= views(old(tasks)@).remove(index as int));
            Ok(())
        },
        None => Err(StoreError::NotFound),
    }
}

/// Gives the first task written as `id` a new status and description.
pub fn update_in(tasks: &mut Vec<Task>, id: &str, status: TaskStatus, description: &str) -> (result:
    Result<(), StoreError>)
    ensures
        updated(views(old(tasks)@), id@, status, description@) matches Some(changed)
            ==> result is Ok && views(final(tasks)@) == changed,
        updated(views(old(tasks)@), id@, status, description@) is None ==> result == Err::<
            (),
            StoreError,
        >(StoreError::NotFound) && final(tasks)@ == old(tasks)@,
{
    match find_task(tasks, id) {
        Some(index) => {
            let kept = tasks[index].id;
            tasks[index] = Task { id: kept, status, description: description.to_owned() };
            assert(views(tasks@) =~= views(old(tasks)@).update(
                index as int,
                TaskView { id: kept, status, description: description@ },
            ));
            Ok(())
        },
        None => Err(StoreError::NotFound),
    }
}

/// A copy of the collection, task by task and in its order.
pub fn copy_tasks(tasks: &Vec<Task>) -> (copy: Vec<Task>)
    ensures
        views(copy@) == views(tasks@),
{
    let mut copy: Vec<Task> = Vec::new();
    let mut index: usize = 0;
    while index < tasks.len()
        invariant
            index <= tasks.len(),
            copy.len() == index,
            forall|at: int| 0 <= at < index ==> (#[trigger] copy@[at])@ == tasks@[at]@,
        decreases tasks.len() - index,
    {
        copy.push(tasks[index].clone());
        index += 1;
    }
    assert(views(copy@) =~= views(tasks@));
    copy
}

/// What a store of tasks can do. The collection is ordered by insertion and
/// a task is found by the written form of its identifier.
///
/// An implementation may keep the collection where reading and writing can
/// fail; such a failure is reported as `StoreError::Io`, and nothing is then
/// said of what the store holds. A store that is `reliable` never fails so.
pub trait TaskStorage {
    /// The collection that the store holds.
    spec fn tasks(&self) -> Seq<TaskView>;

    /// Whether the store never fails for want of its backing.
    spec fn reliable(&self) -> bool;

    /// Gives the whole collection in its order.
    fn load_tasks(&self) -> (result: Result<Vec<Task>, StoreError>)
        ensures
            result matches Ok(loaded) ==> views(loaded@) == self.tasks(),
            result matches Err(error) ==> error is Io && !self.reliable(),
    ;

    /// Adds a task at the end of the collection.
    fn write_task(&mut self, task: Task) -> (result: Result<(), StoreError>)
        ensures
            result is Ok ==> final(self).tasks() == old(self).tasks().push(task@),
            result matches Err(error) ==> error is Io && !old(self).reliable(),
            old(self).reliable() ==> final(self).reliable(),
    ;

    /// Takes out the first task written as `id`. Where there is none the
    /// store fails with `StoreError::NotFound` and holds what it held.
    fn remove_task(&mut self, id: &str) -> (result: Result<(), StoreError>)
        ensures
            result is Ok ==> removed(old(self).tasks(), id@) == Some(final(self).tasks()),
            result matches Err(StoreError::NotFound) ==> removed(old(self).tasks(), id@) is None
                && final(self).tasks() == old(self).tasks(),
            result matches Err(StoreError::Io(_)) ==> !old(self).reliable(),
            old(self).reliable() ==> final(self).reliable(),
    ;

    /// Gives the first task written as `id` a new status and description;
    /// the task keeps its identifier and its place. Where there is none the
    /// store fails with `StoreError::NotFound` and holds what it held.
    fn update_task(&mut self, id: &str, status: TaskStatus, description: &str) -> (result: Result<
        (),
        StoreError,
    >)
        ensures
            result is Ok ==> updated(old(self).tasks(), id@, status, description@) == Some(
                final(self).tasks(),
            ),
            result matches Err(StoreError::NotFound) ==> updated(
                old(self).tasks(),
                id@,
                status,
                description@,
            ) is None && final(self).tasks() == old(self).tasks(),
            result matches Err(StoreError::Io(_)) ==> !old(self).reliable(),
            old(self).reliable() ==> final(self).reliable(),
    ;
}

/// A store that keeps its collection in memory. It is reliable: adding and
/// listing always succeed, and removing and updating fail only where no
/// task is written as the identifier asked for.
pub struct MemoryStorage {
    pub tasks: Vec<Task>,
}

impl MemoryStorage {
    /// A store that holds nothing.
    pub fn new() -> (store: MemoryStorage)
        ensures
            store.tasks() == Seq::<TaskView>::empty(),
    {
        let store = MemoryStorage { tasks: Vec::new() };
        assert(views(store.tasks@) =~= Seq::<TaskView>::empty());
        store
    }
}

impl TaskStorage for MemoryStorage {
    open spec fn tasks(&self) -> Seq<TaskView> {
        views(self.tasks@)
    }

    open spec fn reliable(&self) -> bool {
        true
    }

    fn load_tasks(&self) -> (result: Result<Vec<Task>, StoreError>) {
        Ok(copy_tasks(&self.tasks))
    }

    fn write_task(&mut self, task: Task) -> (result: Result<(), StoreError>) {
        self.tasks.push(task);
        assert(views(self.tasks@) =~= views(old(self).tasks@).push(task@));
        Ok(())
    }

    fn remove_task(&mut self, id: &str) -> (result: Result<(), StoreError>) {
        remove_from(&mut self.tasks, id)
    }

    fn update_task(&mut self, id: &str, status: TaskStatus, description: &str) -> (result: Result<
        (),
        StoreError,
    >) {
        update_in(&mut self.tasks, id, status, description)
    }
}

/// What was found where a file-backed store keeps its tasks.
#[derive(Debug, PartialEq, Eq)]
pub enum Backing {
    /// No backing file exists yet.
    Missing,
    /// There is a backing file, and it cannot be read as a collection of tasks.
    Malformed,
    /// The backing file holds these tasks, in this order.
    Holding(Vec<Task>),
}

impl Backing {
    /// The collection that the backing stands for. A missing file stands for
    /// the empty collection, and so does a malformed one.
    pub open spec fn tasks(self) -> Seq<TaskView> {
        match self {
            Backing::Holding(tasks) => views(tasks@),
            _ => Seq::empty(),
        }
    }
}

/// A store that keeps its collection in one file of the user's data
/// directory and rewrites the whole file on every change.
///
/// The fields name the application the directory belongs to and the file in
/// it. Reading and writing the file is the caller's part: what was found
/// there is handed in as a `Backing`, and the collection it stands for can
/// be worked on in a `MemoryStorage` and written back whole.
#[derive(Debug)]
pub struct FileStorage {
    pub qualifier: String,
    pub organization: String,
    pub application: String,
    pub data_file_name: String,
}

impl FileStorage {
    /// The collection that the backing stands for: the tasks that the file
    /// holds, in its order. Where no file exists yet the collection is
    /// empty, and that is no error; a file that cannot be read as a
    /// collection of tasks counts as empty too.
    pub fn load_tasks(&self, found: Backing) -> (tasks: Vec<Task>)
        ensures
            views(tasks@) == found.tasks(),
            found matches Backing::Holding(held) ==> tasks@ == held@,
            found is Missing || found is Malformed ==> tasks@ == Seq::<Task>::empty(),
    {
        match found {
            Backing::Holding(tasks) => tasks,
            _ => {
                let tasks: Vec<Task> = Vec::new();
                assert(views(tasks@) =~= Seq::<TaskView>::empty());
                tasks
            },
        }
    }
}

} // verus!
