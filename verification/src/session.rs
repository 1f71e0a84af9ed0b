//! The conversation that works on a task list, one line of input at a time.
//!
//! A session holds the list and knows what it waits for. `Session::enter`
//! takes the next line and says what came of it; showing that, and reading
//! the line, is left to the program around the library. Every line is taken
//! without the white space around it.

use vstd::prelude::*;
use vstd::string::*;
use crate::task::TaskStatus;
use crate::text::{is_blank, lemma_trimmed, parse_number, parsed_number, trim, trimmed};
use crate::todo::{AddError, Todo, TodoView};

verus! {

/// What the menu offers.
#[derive(Clone, Copy, Debug, PartialEq, Eq, Structural)]
pub enum Choice {
    /// `1`: add a task.
    AddTask,
    /// `2`: list the tasks.
    ListTasks,
    /// `3`: change the status of a task.
    UpdateStatus,
    /// `4`: delete a task.
    DeleteTask,
    /// `5`: save and leave.
    Quit,
}

/// What a session waits for.
#[derive(Clone, Copy, Debug, PartialEq, Eq, Structural)]
pub enum Prompt {
    /// A choice from the menu.
    Choice,
    /// The name of the task to add.
    TaskName,
    /// The identifier of the task to delete.
    DeleteId,
    /// The identifier of the task whose status is to change.
    StatusId,
    /// The new status of the task with this identifier.
    NewStatus(u64),
    /// After the list could not be saved: `y` to leave all the same.
    ExitAnyway,
}

/// What came of a line of input.
#[derive(Clone, Copy, Debug, PartialEq, Eq, Structural)]
pub enum Outcome {
    /// The line is no choice of the menu.
    BadChoice,
    /// The name of the new task is asked for.
    AskTaskName,
    /// The tasks are to be shown.
    ListTasks,
    /// The tasks are to be shown, and the identifier of the one to delete is
    /// asked for.
    AskDeleteId,
    /// The tasks are to be shown, and the identifier of the one to change is
    /// asked for.
    AskStatusId,
    /// The new status is asked for, by its name.
    AskNewStatus,
    /// A task was added; it has this identifier and stands last in the list.
    Added(u64),
    /// No task was added: the name is blank.
    InvalidName,
    /// No task was added: every identifier has been given out.
    IdsExhausted,
    /// Nothing was done: the line is no number.
    InvalidId,
    /// Nothing was done: the line is not the name of a status.
    InvalidStatus,
    /// The task with this identifier was deleted.
    Deleted(u64),
    /// Nothing was done: no task has this identifier.
    NotFound(u64),
    /// The task with this identifier now has this status.
    StatusChanged(u64, TaskStatus),
    /// The list is to be saved. Where that succeeds the session is over;
    /// where it fails, the next line says whether to leave all the same.
    Save,
    /// The session is over, and the changes since the last save are given up.
    Exit,
    /// The session goes on with the menu.
    Resume,
}

/// A task list and what the conversation about it waits for.
#[derive(Clone, Debug, PartialEq, Eq)]
pub struct Session {
    /// The list.
    pub todo: Todo,
    /// What the next line is taken for.
    pub prompt: Prompt,
}

/// The mathematical model of a `Session`.
pub struct SessionView {
    pub todo: TodoView,
    pub prompt: Prompt,
}

impl View for Session {
    type V = SessionView;

    open spec fn view(&self) -> SessionView {
        SessionView { todo: self.todo@, prompt: self.prompt }
    }
}

/// Whether a text is the one character `c`.
pub open spec fn is_char(text: Seq<char>, c: char) -> bool {
    text.len() == 1 && text[0] == c
}

/// The choice that a text makes: one of the digits `1` to `5`.
pub open spec fn choice_of(text: Seq<char>) -> Option<Choice> {
    if is_char(text, '1') {
        Some(Choice::AddTask)
    } else if is_char(text, '2') {
        Some(Choice::ListTasks)
    } else if is_char(text, '3') {
        Some(Choice::UpdateStatus)
    } else if is_char(text, '4') {
        Some(Choice::DeleteTask)
    } else if is_char(text, '5') {
        Some(Choice::Quit)
    } else {
        None
    }
}

impl SessionView {
    /// The session that waits for `prompt`, with the same list.
    pub open spec fn wait_for(self, prompt: Prompt) -> SessionView {
        SessionView { prompt, ..self }
    }

    /// What a choice of the menu leads to. Listing and a line that is no
    /// choice leave the session at the menu; quitting asks for a save and
    /// waits for the answer that is needed where the save fails.
    pub open spec fn pick(self, choice: Option<Choice>) -> (SessionView, Outcome) {
        match choice {
            Some(Choice::AddTask) => (self.wait_for(Prompt::TaskName), Outcome::AskTaskName),
            Some(Choice::ListTasks) => (self, Outcome::ListTasks),
            Some(Choice::UpdateStatus) => (self.wait_for(Prompt::StatusId), Outcome::AskStatusId),
            Some(Choice::DeleteTask) => (self.wait_for(Prompt::DeleteId), Outcome::AskDeleteId),
            Some(Choice::Quit) => (self.wait_for(Prompt::ExitAnyway), Outcome::Save),
            None => (self, Outcome::BadChoice),
        }
    }

    /// What a name for a new task leads to.
    pub open spec fn name_task(self, name: Seq<char>) -> (SessionView, Outcome) {
        let outcome = if is_blank(name) {
            Outcome::InvalidName
        } else if self.todo.next_id == u64::MAX {
            Outcome::IdsExhausted
        } else {
            Outcome::Added(self.todo.next_id)
        };
        (SessionView { todo: self.todo.add(name), prompt: Prompt::Choice }, outcome)
    }

    /// What the identifier of a task to delete leads to.
    pub open spec fn delete(self, id: Option<u64>) -> (SessionView, Outcome) {
        match id {
            Some(id) => (
                SessionView { todo: self.todo.delete(id), prompt: Prompt::Choice },
                if self.todo.has_id(id) {
                    Outcome::Deleted(id)
                } else {
                    Outcome::NotFound(id)
                },
            ),
            None => (self.wait_for(Prompt::Choice), Outcome::InvalidId),
        }
    }

    /// What the identifier of a task to change leads to.
    pub open spec fn pick_task(self, id: Option<u64>) -> (SessionView, Outcome) {
        match id {
            Some(id) => if self.todo.has_id(id) {
                (self.wait_for(Prompt::NewStatus(id)), Outcome::AskNewStatus)
            } else {
                (self.wait_for(Prompt::Choice), Outcome::NotFound(id))
            },
            None => (self.wait_for(Prompt::Choice), Outcome::InvalidId),
        }
    }

    /// What the new status for the task `id` leads to.
    pub open spec fn set_status(self, id: u64, status: Option<TaskStatus>) -> (SessionView, Outcome) {
        match status {
            Some(status) => (
                SessionView {
                    todo: self.todo.update_status(id, status),
                    prompt: Prompt::Choice,
                },
                if self.todo.has_id(id) {
                    Outcome::StatusChanged(id, status)
                } else {
                    Outcome::NotFound(id)
                },
            ),
            None => (self.wait_for(Prompt::Choice), Outcome::InvalidStatus),
        }
    }

    /// What the answer after a failed save leads to: `y` ends the session,
    /// anything else takes it back to the menu.
    pub open spec fn confirm_exit(self, answer: Seq<char>) -> (SessionView, Outcome) {
        if is_char(answer, 'y') {
            (self, Outcome::Exit)
        } else {
            (self.wait_for(Prompt::Choice), Outcome::Resume)
        }
    }

    /// The session after a line of input, and what came of the line.
    pub open spec fn enter(self, line: Seq<char>) -> (SessionView, Outcome) {
        let text = trimmed(line);
        match self.prompt {
            Prompt::Choice => self.pick(choice_of(text)),
            Prompt::TaskName => self.name_task(text),
            Prompt::DeleteId => self.delete(parsed_number(text)),
            Prompt::StatusId => self.pick_task(parsed_number(text)),
            Prompt::NewStatus(id) => self.set_status(id, TaskStatus::from_name_spec(text)),
            Prompt::ExitAnyway => self.confirm_exit(text),
        }
    }

    /// No line of input takes a session from a well-formed list to one that
    /// is not.
    pub proof fn lemma_enter_well_formed(self, line: Seq<char>)
        requires
            self.todo.well_formed(),
        ensures
            self.enter(line).0.todo.well_formed(),
    {
        let text = trimmed(line);
        match self.prompt {
            Prompt::TaskName => {
                self.todo.lemma_apply_well_formed(crate::history::Op::Add(text));
            },
            Prompt::DeleteId => {
                if let Some(id) = parsed_number(text) {
                    self.todo.lemma_apply_well_formed(crate::history::Op::Delete(id));
                }
            },
            Prompt::NewStatus(id) => {
                if let Some(status) = TaskStatus::from_name_spec(text) {
                    self.todo.lemma_apply_well_formed(crate::history::Op::UpdateStatus(id, status));
                }
            },
            _ => {},
        }
    }

    /// Where a name is waited for, a blank line is refused and no other line
    /// is refused for its name; a line that is refused leaves the list as it
    /// is.
    pub proof fn lemma_blank_name(self, line: Seq<char>)
        requires
            self.prompt == Prompt::TaskName,
        ensures
            is_blank(line) <==> self.enter(line).1 == Outcome::InvalidName,
            !(self.enter(line).1 is Added) ==> self.enter(line).0.todo == self.todo,
    {
        lemma_trimmed(line);
    }

    /// Only three kinds of line change the list: a name for a new task, the
    /// identifier of a task to delete, and a new status. A line that is
    /// refused changes nothing.
    pub proof fn lemma_enter_keeps_list(self, line: Seq<char>)
        ensures
            ({
                let (after, outcome) = self.enter(line);
                after.todo == self.todo || outcome is Added || outcome is Deleted
                    || outcome is StatusChanged
            }),
    {
    }
}

/// Tells whether a text is the one character `c`.
pub fn text_is_char(text: &str, c: char) -> (r: bool)
    ensures
        r == is_char(text@, c),
{
    text.unicode_len() == 1 && text.get_char(0) == c
}

/// Reads a choice of the menu.
pub fn parse_choice(text: &str) -> (r: Option<Choice>)
    ensures
        r == choice_of(text@),
{
    if text_is_char(text, '1') {
        Some(Choice::AddTask)
    } else if text_is_char(text, '2') {
        Some(Choice::ListTasks)
    } else if text_is_char(text, '3') {
        Some(Choice::UpdateStatus)
    } else if text_is_char(text, '4') {
        Some(Choice::DeleteTask)
    } else if text_is_char(text, '5') {
        Some(Choice::Quit)
    } else {
        None
    }
}

impl Session {
    /// A session on the given list, at the menu.
    pub fn new(todo: Todo) -> (r: Session)
        ensures
            r.todo == todo,
            r.prompt == Prompt::Choice,
    {
        Session { todo, prompt: Prompt::Choice }
    }

    /// Takes a line of input for what the session waits for, and says what
    /// came of it.
    pub fn enter(&mut self, line: &str) -> (r: Outcome)
        ensures
            (final(self)@, r) == old(self)@.enter(line@),
    {
        let text = trim(line);
        match self.prompt {
            Prompt::Choice => match parse_choice(text) {
                Some(Choice::AddTask) => {
                    self.prompt = Prompt::TaskName;
                    Outcome::AskTaskName
                },
                Some(Choice::ListTasks) => Outcome::ListTasks,
                Some(Choice::UpdateStatus) => {
                    self.prompt = Prompt::StatusId;
                    Outcome::AskStatusId
                },
                Some(Choice::DeleteTask) => {
                    self.prompt = Prompt::DeleteId;
                    Outcome::AskDeleteId
                },
                Some(Choice::Quit) => {
                    self.prompt = Prompt::ExitAnyway;
                    Outcome::Save
                },
                None => Outcome::BadChoice,
            },
            Prompt::TaskName => {
                self.prompt = Prompt::Choice;
                match self.todo.add_task(text.to_owned()) {
                    Ok(task) => Outcome::Added(task.id),
                    Err(AddError::InvalidName) => Outcome::InvalidName,
                    Err(AddError::IdsExhausted) => Outcome::IdsExhausted,
                }
            },
            Prompt::DeleteId => {
                self.prompt = Prompt::Choice;
                match parse_number(text) {
                    Some(id) => if self.todo.delete_task(id) {
                        Outcome::Deleted(id)
                    } else {
                        Outcome::NotFound(id)
                    },
                    None => Outcome::InvalidId,
                }
            },
            Prompt::StatusId => match parse_number(text) {
                Some(id) => if self.todo.find(id).is_some() {
                    self.prompt = Prompt::NewStatus(id);
                    Outcome::AskNewStatus
                } else {
                    self.prompt = Prompt::Choice;
                    Outcome::NotFound(id)
                },
                None => {
                    self.prompt = Prompt::Choice;
                    Outcome::InvalidId
                },
            },
            Prompt::NewStatus(id) => {
                self.prompt = Prompt::Choice;
                match TaskStatus::from_name(text) {
                    Some(status) => if self.todo.update_status(id, status) {
                        Outcome::StatusChanged(id, status)
                    } else {
                        Outcome::NotFound(id)
                    },
                    None => Outcome::InvalidStatus,
                }
            },
            Prompt::ExitAnyway => if text_is_char(text, 'y') {
                Outcome::Exit
            } else {
                self.prompt = Prompt::Choice;
                Outcome::Resume
            },
        }
    }
}

} // verus!
