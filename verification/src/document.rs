//! The JSON document that persists a task list.
//!
//! A document is an object with the entries `tasks`, an array, and `next_id`,
//! an integer from zero up. Each element of the array is an object with the
//! entries `id`, an integer from zero up, `task_name`, a string, and
//! `status`, one of the strings `NOT_STARTED`, `IN_PROGRESS` and `COMPLETED`.
//! Entries under other keys are passed over.

use vstd::prelude::*;
use crate::json::{
    array, field, object, parse, parsed_json, pretty, pretty_json, string, unsigned, value_json,
    Json,
};
use crate::task::{Task, TaskStatus, TaskView};
use crate::todo::{Todo, TodoView};

verus! {

/// Why a text was not read as a task list.
#[derive(Clone, Copy, Debug, PartialEq, Eq, Structural)]
pub enum LoadError {
    /// The text is not JSON.
    Malformed,
    /// The text is JSON, but an entry of a document is missing or holds a
    /// value of another kind.
    UnexpectedShape,
}

/// Why a task list was not written as a text.
#[derive(Clone, Copy, Debug, PartialEq, Eq, Structural)]
pub enum SaveError {
    /// The JSON printer reported an error.
    Unprintable,
}

/// The keys of a document differ from one another, and so do the keys of a
/// task.
pub proof fn lemma_keys_differ()
    ensures
        "tasks"@ != "next_id"@,
        "id"@ != "task_name"@,
        "id"@ != "status"@,
        "task_name"@ != "status"@,
{
    reveal_strlit("tasks");
    reveal_strlit("next_id");
    reveal_strlit("id");
    reveal_strlit("task_name");
    reveal_strlit("status");
    assert("tasks"@.len() != "next_id"@.len());
    assert("id"@.len() != "task_name"@.len());
    assert("id"@.len() != "status"@.len());
    assert("task_name"@.len() != "status"@.len());
}

impl TaskStatus {
    /// The status that a JSON value stands for: the string of its name.
    pub open spec fn from_json(json: Json) -> Option<TaskStatus> {
        match json {
            Json::String(name) => TaskStatus::from_name_spec(name),
            _ => None,
        }
    }
}

impl TaskView {
    /// The task as a JSON value.
    pub open spec fn to_json(self) -> Json {
        Json::Object(
            Map::empty().insert("id"@, Json::Unsigned(self.id)).insert(
                "task_name"@,
                Json::String(self.name),
            ).insert("status"@, Json::String(self.status.name_spec())),
        )
    }

    /// The task that a JSON value stands for, if it has the shape of one.
    pub open spec fn from_json(json: Json) -> Option<TaskView> {
        match json {
            Json::Object(entries) => {
                if entries.contains_key("id"@) && entries.contains_key("task_name"@)
                    && entries.contains_key("status"@) {
                    match (
                        entries["id"@],
                        entries["task_name"@],
                        TaskStatus::from_json(entries["status"@]),
                    ) {
                        (Json::Unsigned(id), Json::String(name), Some(status)) => Some(
                            TaskView { id, name, status },
                        ),
                        _ => None,
                    }
                } else {
                    None
                }
            },
            _ => None,
        }
    }

    /// A JSON value without the entry `id`, `task_name` or `status` is no
    /// task, whatever else it holds; nor is a value that is no object.
    pub proof fn lemma_incomplete_is_refused(json: Json)
        requires
            match json {
                Json::Object(entries) => !entries.contains_key("id"@) || !entries.contains_key(
                    "task_name"@,
                ) || !entries.contains_key("status"@),
                _ => true,
            },
        ensures
            TaskView::from_json(json) is None,
    {
    }

    /// A task is read back from the JSON value written for it.
    pub proof fn lemma_json_round_trip(self)
        ensures
            TaskView::from_json(self.to_json()) == Some(self),
    {
        lemma_keys_differ();
        self.status.lemma_name_round_trip();
    }
}

impl TodoView {
    /// The tasks as JSON values, in their order.
    pub open spec fn tasks_to_json(tasks: Seq<TaskView>) -> Seq<Json> {
        tasks.map_values(|t: TaskView| t.to_json())
    }

    /// The tasks that JSON values stand for, if every one has the shape of a
    /// task.
    pub open spec fn tasks_from_json(items: Seq<Json>) -> Option<Seq<TaskView>> {
        if forall|i: int| 0 <= i < items.len() ==> TaskView::from_json(#[trigger] items[i]) is Some {
            Some(items.map_values(|j: Json| TaskView::from_json(j).unwrap()))
        } else {
            None
        }
    }

    /// The list as a JSON value: its document.
    pub open spec fn to_json(self) -> Json {
        Json::Object(
            Map::empty().insert("tasks"@, Json::Array(Self::tasks_to_json(self.tasks))).insert(
                "next_id"@,
                Json::Unsigned(self.next_id),
            ),
        )
    }

    /// The list that a JSON value stands for, if it has the shape of a
    /// document.
    pub open spec fn from_json(json: Json) -> Option<TodoView> {
        match json {
            Json::Object(entries) => {
                if entries.contains_key("tasks"@) && entries.contains_key("next_id"@) {
                    match (entries["tasks"@], entries["next_id"@]) {
                        (Json::Array(items), Json::Unsigned(next_id)) => match Self::tasks_from_json(
                            items,
                        ) {
                            Some(tasks) => Some(TodoView { tasks, next_id }),
                            None => None,
                        },
                        _ => None,
                    }
                } else {
                    None
                }
            },
            _ => None,
        }
    }

    /// What reading a text gives: the list of the document that the text
    /// holds, or the reason why there is none.
    pub open spec fn from_document(text: Seq<char>) -> Result<TodoView, LoadError> {
        match parsed_json(text) {
            None => Err(LoadError::Malformed),
            Some(json) => match Self::from_json(json) {
                Some(todo) => Ok(todo),
                None => Err(LoadError::UnexpectedShape),
            },
        }
    }

    /// What writing the list gives: the text that the JSON printer makes of
    /// its document, or the error of the printer.
    pub open spec fn to_document(self) -> Result<Seq<char>, SaveError> {
        match pretty_json(self.to_json()) {
            Some(text) => Ok(text),
            None => Err(SaveError::Unprintable),
        }
    }

    /// Every list is read back from its document: the same tasks in the same
    /// order, and the same `next_id`.
    pub proof fn lemma_json_round_trip(self)
        ensures
            TodoView::from_json(self.to_json()) == Some(self),
    {
        lemma_keys_differ();
        let items = Self::tasks_to_json(self.tasks);
        assert forall|i: int| 0 <= i < items.len() implies TaskView::from_json(
            #[trigger] items[i],
        ) == Some(self.tasks[i]) by {
            self.tasks[i].lemma_json_round_trip();
        }
        assert(Self::tasks_from_json(items).unwrap() =~= self.tasks);
    }

    /// A JSON value without the entry `tasks` or without the entry `next_id`
    /// is no document, whatever else it holds; nor is a value that is no
    /// object.
    pub proof fn lemma_incomplete_is_refused(json: Json)
        requires
            match json {
                Json::Object(entries) => !entries.contains_key("tasks"@) || !entries.contains_key(
                    "next_id"@,
                ),
                _ => true,
            },
        ensures
            TodoView::from_json(json) is None,
    {
    }

    /// A document is refused as a whole where one element of `tasks` has not
    /// the shape of a task.
    pub proof fn lemma_one_task_refuses_all(json: Json, i: int)
        requires
            ({
                &&& json matches Json::Object(entries)
                &&& entries.contains_key("tasks"@)
                &&& entries["tasks"@] matches Json::Array(items)
                &&& 0 <= i < items.len()
                &&& TaskView::from_json(items[i]) is None
            }),
        ensures
            TodoView::from_json(json) is None,
    {
    }
}

impl Task {
    /// The task as a JSON value, from which `from_value` reads it back.
    pub fn to_value(&self) -> (r: serde_json::Value)
        ensures
            value_json(r) == self@.to_json(),
            TaskView::from_json(value_json(r)) == Some(self@),
    {
        proof {
            self@.lemma_json_round_trip();
        }
        let mut entries = serde_json::Map::new();
        entries.insert("id".to_owned(), unsigned(self.id));
        entries.insert("task_name".to_owned(), string(self.task_name.clone()));
        entries.insert("status".to_owned(), string(self.status.name().to_owned()));
        object(entries)
    }

    /// Reads a task from a JSON value. `None` where the value has not the
    /// shape of a task.
    pub fn from_value(value: &serde_json::Value) -> (r: Option<Task>)
        ensures
            match r {
                Some(task) => TaskView::from_json(value_json(*value)) == Some(task@),
                None => TaskView::from_json(value_json(*value)) is None,
            },
    {
        let id = match field(value, "id") {
            Some(v) => match v.as_u64() {
                Some(id) => id,
                None => return None,
            },
            None => return None,
        };
        let task_name = match field(value, "task_name") {
            Some(v) => match v.as_str() {
                Some(name) => name.to_owned(),
                None => return None,
            },
            None => return None,
        };
        let status = match field(value, "status") {
            Some(v) => match v.as_str() {
                Some(name) => match TaskStatus::from_name(name) {
                    Some(status) => status,
                    None => return None,
                },
                None => return None,
            },
            None => return None,
        };
        Some(Task { id, task_name, status })
    }
}

impl Todo {
    /// The list as a JSON value: its document, from which `from_value` reads
    /// it back.
    pub fn to_value(&self) -> (r: serde_json::Value)
        ensures
            value_json(r) == self@.to_json(),
            TodoView::from_json(value_json(r)) == Some(self@),
    {
        proof {
            self@.lemma_json_round_trip();
        }
        let mut items: Vec<serde_json::Value> = Vec::new();
        let mut i: usize = 0;
        while i < self.tasks.len()
            invariant
                i <= self.tasks.len(),
                items.len() == i,
                forall|j: int| 0 <= j < i ==> value_json(#[trigger] items@[j]) == self@.tasks[j].to_json(),
            decreases self.tasks.len() - i,
        {
            items.push(self.tasks[i].to_value());
            i += 1;
        }
        assert(items@.map_values(|x: serde_json::Value| value_json(x)) =~= TodoView::tasks_to_json(
            self@.tasks,
        ));
        let mut entries = serde_json::Map::new();
        entries.insert("tasks".to_owned(), array(items));
        entries.insert("next_id".to_owned(), unsigned(self.next_id));
        object(entries)
    }

    /// Reads a list from a JSON value. The error is `UnexpectedShape`, and it
    /// comes where the value has not the shape of a document.
    pub fn from_value(value: &serde_json::Value) -> (r: Result<Todo, LoadError>)
        ensures
            match r {
                Ok(todo) => TodoView::from_json(value_json(*value)) == Some(todo@),
                Err(e) => e == LoadError::UnexpectedShape && TodoView::from_json(
                    value_json(*value),
                ) is None,
            },
    {
        let items = match field(value, "tasks") {
            Some(v) => match v.as_array() {
                Some(items) => items,
                None => return Err(LoadError::UnexpectedShape),
            },
            None => return Err(LoadError::UnexpectedShape),
        };
        let next_id = match field(value, "next_id") {
            Some(v) => match v.as_u64() {
                Some(next_id) => next_id,
                None => return Err(LoadError::UnexpectedShape),
            },
            None => return Err(LoadError::UnexpectedShape),
        };
        let ghost models = items@.map_values(|x: serde_json::Value| value_json(x));
        let mut tasks: Vec<Task> = Vec::new();
        let mut i: usize = 0;
        while i < items.len()
            invariant
                i <= items.len(),
                tasks.len() == i,
                models == items@.map_values(|x: serde_json::Value| value_json(x)),
                value_json(*value) is Object,
                value_json(*value)->Object_0.contains_key("tasks"@),
                value_json(*value)->Object_0["tasks"@] == Json::Array(models),
                forall|j: int|
                    0 <= j < i ==> TaskView::from_json(#[trigger] models[j]) == Some(tasks@[j]@),
            decreases items.len() - i,
        {
            match Task::from_value(&items[i]) {
                Some(task) => tasks.push(task),
                None => {
                    assert(TaskView::from_json(models[i as int]) is None);
                    return Err(LoadError::UnexpectedShape);
                },
            }
            i += 1;
        }
        let todo = Todo { tasks, next_id };
        assert(TodoView::tasks_from_json(models).unwrap() =~= todo@.tasks);
        Ok(todo)
    }

    /// Reads a list from the text of a document.
    ///
    /// The error is `Malformed` where the text is not JSON, and
    /// `UnexpectedShape` where it is JSON of another shape. No list is made
    /// up in place of one that cannot be read.
    pub fn new(document: &str) -> (r: Result<Todo, LoadError>)
        ensures
            match TodoView::from_document(document@) {
                Ok(todo) => r matches Ok(read) && read@ == todo,
                Err(e) => r matches Err(reason) && reason == e,
            },
    {
        match parse(document) {
            Ok(value) => Todo::from_value(&value),
            Err(_) => Err(LoadError::Malformed),
        }
    }

    /// Writes the list as the text of its document, pretty-printed.
    pub fn to_document(&self) -> (r: Result<String, SaveError>)
        ensures
            match self@.to_document() {
                Ok(text) => r matches Ok(written) && written@ == text,
                Err(e) => r matches Err(reason) && reason == e,
            },
    {
        let value = self.to_value();
        match pretty(&value) {
            Ok(text) => Ok(text),
            Err(_) => Err(SaveError::Unprintable),
        }
    }
}

} // verus!
