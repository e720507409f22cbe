//! Tasks and their lifecycle states.

use crate::utils::{
    generate_uuid, id_text, is_random_id, lemma_random_id_is_not_zero, uuid_to_string,
};
use vstd::prelude::*;

verus! {

/// The lifecycle state of a task.
#[derive(Clone, Copy, Debug, PartialEq, Eq, Structural)]
pub enum TaskStatus {
    Todo,
    InProgress,
    Blocked,
    Done,
}

impl TaskStatus {
    /// The status that a key of the numeric status menu selects, if any.
    pub open spec fn for_key(code: char) -> Option<TaskStatus> {
        if code == '1' {
            Some(TaskStatus::Todo)
        } else if code == '2' {
            Some(TaskStatus::InProgress)
        } else if code == '3' {
            Some(TaskStatus::Blocked)
        } else if code == '4' {
            Some(TaskStatus::Done)
        } else {
            None
        }
    }

    /// Resolves a key pressed at the numeric status menu.
    pub fn from_key(code: char) -> (status: Option<TaskStatus>)
        ensures
            status == Self::for_key(code),
    {
        match code {
            '1' => Some(TaskStatus::Todo),
            '2' => Some(TaskStatus::InProgress),
            '3' => Some(TaskStatus::Blocked),
            '4' => Some(TaskStatus::Done),
            _ => None,
        }
    }
}

/// A work item as it is kept.
#[derive(Debug, PartialEq, Eq)]
pub struct Task {
    /// Given at creation and never changed; the only key a task is found by.
    pub id: u128,
    pub status: TaskStatus,
    pub description: String,
}

/// What a task is, with its description as a sequence of characters.
pub struct TaskView {
    pub id: u128,
    pub status: TaskStatus,
    pub description: Seq<char>,
}

impl View for Task {
    type V = TaskView;

    open spec fn view(&self) -> TaskView {
        TaskView { id: self.id, status: self.status, description: self.description@ }
    }
}

impl Clone for Task {
    fn clone(&self) -> (copy: Task)
        ensures
            copy == *self,
    {
        Task { id: self.id, status: self.status, description: self.description.clone() }
    }
}

impl Task {
    /// Makes a task with a newly drawn identifier.
    pub fn new(status: TaskStatus, description: String) -> (task: Task)
        ensures
            is_random_id(task.id),
            task.id != 0,
            task.status == status,
            task.description == description,
    {
        let id = generate_uuid();
        proof {
            lemma_random_id_is_not_zero(id);
        }
        Task { id, status, description }
    }

    /// The identifier as it is written, which is the form a task is asked
    /// for by.
    pub fn id_string(&self) -> (text: String)
        ensures
            text@ == id_text(self.id),
    {
        uuid_to_string(self.id)
    }
}

/// The views of the tasks of a collection, in its order.
pub open spec fn views(tasks: Seq<Task>) -> Seq<TaskView> {
    tasks.map_values(|task: Task| task@)
}

} // verus!
