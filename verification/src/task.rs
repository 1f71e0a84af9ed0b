//! Tasks and their status.

use vstd::prelude::*;

verus! {

/// How far the work on a task has come.
#[derive(Clone, Copy, Debug, PartialEq, Eq, Structural)]
pub enum TaskStatus {
    /// Nobody has begun. A new task has this status.
    NotStarted,
    /// The work is under way.
    InProgress,
    /// The work is done.
    Completed,
}

impl TaskStatus {
    /// The name under which a status is written in a document.
    pub open spec fn name_spec(self) -> Seq<char> {
        match self {
            TaskStatus::NotStarted => "NOT_STARTED"@,
            TaskStatus::InProgress => "IN_PROGRESS"@,
            TaskStatus::Completed => "COMPLETED"@,
        }
    }

    /// The status that a name stands for, if it is the name of one.
    pub open spec fn from_name_spec(name: Seq<char>) -> Option<TaskStatus> {
        if name == "NOT_STARTED"@ {
            Some(TaskStatus::NotStarted)
        } else if name == "IN_PROGRESS"@ {
            Some(TaskStatus::InProgress)
        } else if name == "COMPLETED"@ {
            Some(TaskStatus::Completed)
        } else {
            None
        }
    }

    /// The name under which this status is written in a document.
    pub fn name(self) -> (r: &'static str)
        ensures
            r@ == self.name_spec(),
    {
        match self {
            TaskStatus::NotStarted => "NOT_STARTED",
            TaskStatus::InProgress => "IN_PROGRESS",
            TaskStatus::Completed => "COMPLETED",
        }
    }

    /// Reads a status from its name. Names are case-sensitive.
    pub fn from_name(name: &str) -> (r: Option<TaskStatus>)
        ensures
            r == Self::from_name_spec(name@),
    {
        let given = name.to_owned();
        if given == "NOT_STARTED".to_owned() {
            Some(TaskStatus::NotStarted)
        } else if given == "IN_PROGRESS".to_owned() {
            Some(TaskStatus::InProgress)
        } else if given == "COMPLETED".to_owned() {
            Some(TaskStatus::Completed)
        } else {
            None
        }
    }

    /// No two statuses share a name, so a status is read back from its name.
    pub proof fn lemma_name_round_trip(self)
        ensures
            Self::from_name_spec(self.name_spec()) == Some(self),
    {
        reveal_strlit("NOT_STARTED");
        reveal_strlit("IN_PROGRESS");
        reveal_strlit("COMPLETED");
        assert("IN_PROGRESS"@[0] != "NOT_STARTED"@[0]);
        assert("COMPLETED"@.len() != "NOT_STARTED"@.len());
        assert("COMPLETED"@.len() != "IN_PROGRESS"@.len());
    }
}

/// A single entry of the task list.
#[derive(Clone, Debug, PartialEq, Eq)]
pub struct Task {
    /// The identifier, which no other task of the list has or will have.
    pub id: u64,
    /// What is to be done.
    pub task_name: String,
    /// How far the work has come.
    pub status: TaskStatus,
}

/// The mathematical model of a `Task`.
pub struct TaskView {
    pub id: u64,
    pub name: Seq<char>,
    pub status: TaskStatus,
}

impl View for Task {
    type V = TaskView;

    open spec fn view(&self) -> TaskView {
        TaskView { id: self.id, name: self.task_name@, status: self.status }
    }
}

} // verus!
