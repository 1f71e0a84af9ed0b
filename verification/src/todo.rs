//! The task list and what can be done to it.

use vstd::prelude::*;
use crate::task::{Task, TaskStatus, TaskView};
use crate::text::{is_blank, name_is_blank};

verus! {

/// The task list: the tasks, and the identifier that the next new task gets.
///
/// A list is well formed (`TodoView::well_formed`) when its tasks have
/// different identifiers, all of them below `next_id`. The empty list is, and
/// every operation keeps a well-formed list so. A well-formed list therefore
/// never gives an identifier out twice, whatever has been deleted. The
/// operations are defined on every list all the same: a document written by
/// hand may hold one that is not well formed.
#[derive(Clone, Debug, PartialEq, Eq)]
pub struct Todo {
    /// The tasks. A new task goes to the end; a deletion moves the last task
    /// to the place of the one deleted.
    pub tasks: Vec<Task>,
    /// The identifier of the next new task.
    pub next_id: u64,
}

/// The mathematical model of a `Todo`.
pub struct TodoView {
    pub tasks: Seq<TaskView>,
    pub next_id: u64,
}

impl View for Todo {
    type V = TodoView;

    open spec fn view(&self) -> TodoView {
        TodoView { tasks: self.tasks@.map_values(|t: Task| t@), next_id: self.next_id }
    }
}

/// Why a task was not added.
#[derive(Clone, Copy, Debug, PartialEq, Eq, Structural)]
pub enum AddError {
    /// The name is empty or white space throughout.
    InvalidName,
    /// Every identifier has been given out.
    IdsExhausted,
}

impl TodoView {
    /// The list without tasks, as a list begins.
    pub open spec fn empty() -> TodoView {
        TodoView { tasks: Seq::empty(), next_id: 1 }
    }

    /// Different tasks have different identifiers, and `next_id` is above
    /// them all.
    pub open spec fn well_formed(self) -> bool {
        &&& forall|i: int| 0 <= i < self.tasks.len() ==> (#[trigger] self.tasks[i]).id < self.next_id
        &&& forall|i: int, j: int|
            0 <= i < j < self.tasks.len() ==> (#[trigger] self.tasks[i]).id != (
            #[trigger] self.tasks[j]).id
    }

    /// Whether some task has the identifier `id`.
    pub open spec fn has_id(self, id: u64) -> bool {
        exists|i: int| 0 <= i < self.tasks.len() && (#[trigger] self.tasks[i]).id == id
    }

    /// Whether `k` is the place of the first task with the identifier `id`.
    pub open spec fn is_position(self, id: u64, k: int) -> bool {
        &&& 0 <= k < self.tasks.len()
        &&& self.tasks[k].id == id
        &&& forall|i: int| 0 <= i < k ==> (#[trigger] self.tasks[i]).id != id
    }

    /// The place of the first task with the identifier `id`. It means
    /// nothing where no task has it.
    pub open spec fn position(self, id: u64) -> int {
        choose|k: int| self.is_position(id, k)
    }

    /// Whether `add` takes a task of this name: the name is not blank, and an
    /// identifier is left.
    pub open spec fn accepts(self, name: Seq<char>) -> bool {
        !is_blank(name) && self.next_id < u64::MAX
    }

    /// The task that `add` makes of a name.
    pub open spec fn new_task(self, name: Seq<char>) -> TaskView {
        TaskView { id: self.next_id, name, status: TaskStatus::NotStarted }
    }

    /// The list after a task of this name was added: the new task stands at
    /// the end, and `next_id` is one more. A name that is not accepted leaves
    /// the list as it is.
    pub open spec fn add(self, name: Seq<char>) -> TodoView {
        if self.accepts(name) {
            TodoView {
                tasks: self.tasks.push(self.new_task(name)),
                next_id: (self.next_id + 1) as u64,
            }
        } else {
            self
        }
    }

    /// The list after the task at place `k` was taken out: the last task
    /// stands in its place, and the list is one shorter.
    pub open spec fn remove_at(self, k: int) -> TodoView {
        TodoView { tasks: self.tasks.update(k, self.tasks.last()).drop_last(), ..self }
    }

    /// The list after the first task with the identifier `id` was deleted.
    /// Where no task has it the list stays as it is.
    pub open spec fn delete(self, id: u64) -> TodoView {
        if self.has_id(id) {
            self.remove_at(self.position(id))
        } else {
            self
        }
    }

    /// The list after the first task with the identifier `id` got the status
    /// `status`. Where no task has it the list stays as it is.
    pub open spec fn update_status(self, id: u64, status: TaskStatus) -> TodoView {
        if self.has_id(id) {
            let k = self.position(id);
            TodoView { tasks: self.tasks.update(k, TaskView { status, ..self.tasks[k] }), ..self }
        } else {
            self
        }
    }

    /// The first task with an identifier has one place only.
    pub proof fn lemma_position(self, id: u64, k: int)
        requires
            self.is_position(id, k),
        ensures
            self.has_id(id),
            self.position(id) == k,
    {
        let p = self.position(id);
        assert(self.is_position(id, p));
        if p < k {
            assert(self.tasks[p].id != id);
        } else if k < p {
            assert(self.tasks[k].id != id);
        }
    }

    /// Deleting takes exactly one task out, the first with the identifier:
    /// the list is one shorter, every other task is still in it as often as
    /// before, and `next_id` stays.
    pub proof fn lemma_delete_removes_one(self, id: u64)
        requires
            self.has_id(id),
        ensures
            self.is_position(id, self.position(id)),
            self.delete(id).tasks.len() == self.tasks.len() - 1,
            self.delete(id).tasks.to_multiset() == self.tasks.to_multiset().remove(
                self.tasks[self.position(id)],
            ),
            self.delete(id).next_id == self.next_id,
    {
        self.lemma_present_has_position(id);
        let k = self.position(id);
        let s = self.tasks;
        let after = self.delete(id).tasks;
        broadcast use vstd::seq_lib::to_multiset_remove;

        if k == s.len() - 1 {
            assert(after =~= s.remove(k));
        } else {
            let rest = s.remove(k).drop_last();
            assert(s.remove(k) =~= rest.push(s.last()));
            assert(after =~= rest.insert(k, s.last()));
            vstd::seq_lib::to_multiset_build(rest, s.last());
            vstd::seq_lib::to_multiset_insert(rest, k, s.last());
        }
    }

    /// From a well-formed list deleting takes the identifier out for good:
    /// no task is left that has it.
    pub proof fn lemma_deleted_is_gone(self, id: u64)
        requires
            self.well_formed(),
        ensures
            !self.delete(id).has_id(id),
    {
        if self.has_id(id) {
            self.lemma_present_has_position(id);
            let k = self.position(id);
            let after = self.delete(id).tasks;
            assert forall|i: int| 0 <= i < after.len() implies (#[trigger] after[i]).id != id by {
                if i == k {
                    assert(after[i] == self.tasks[self.tasks.len() - 1]);
                } else {
                    assert(after[i] == self.tasks[i]);
                }
            }
        }
    }

    /// Where some task has the identifier, `position` is the place of the
    /// first that has it.
    pub proof fn lemma_present_has_position(self, id: u64)
        requires
            self.has_id(id),
        ensures
            self.is_position(id, self.position(id)),
    {
        let k = choose|i: int| 0 <= i < self.tasks.len() && (#[trigger] self.tasks[i]).id == id;
        self.lemma_has_position(id, k);
    }

    /// Where the task at place `k` has the identifier, `position` is the
    /// place of the first that has it, which is `k` or lies before it.
    pub proof fn lemma_has_position(self, id: u64, k: int)
        requires
            0 <= k < self.tasks.len(),
            self.tasks[k].id == id,
        ensures
            self.is_position(id, self.position(id)),
            self.position(id) <= k,
        decreases k,
    {
        if exists|i: int| 0 <= i < k && (#[trigger] self.tasks[i]).id == id {
            let i = choose|i: int| 0 <= i < k && (#[trigger] self.tasks[i]).id == id;
            self.lemma_has_position(id, i);
        } else {
            assert(self.is_position(id, k));
            self.lemma_position(id, k);
        }
    }
}

impl Default for Todo {
    /// The list without tasks, whose first task will get the identifier 1.
    fn default() -> (r: Todo)
        ensures
            r@ == TodoView::empty(),
            r@.well_formed(),
    {
        let r = Todo { tasks: Vec::new(), next_id: 1 };
        assert(r@.tasks =~= Seq::empty());
        r
    }
}

impl Todo {
    /// Looks for the first task with the identifier `id`.
    pub fn find(&self, id: u64) -> (r: Option<usize>)
        ensures
            match r {
                Some(k) => self@.is_position(id, k as int) && self@.position(id) == k,
                None => !self@.has_id(id),
            },
    {
        let mut i: usize = 0;
        while i < self.tasks.len()
            invariant
                i <= self.tasks.len(),
                forall|j: int| 0 <= j < i ==> (#[trigger] self@.tasks[j]).id != id,
            decreases self.tasks.len() - i,
        {
            if self.tasks[i].id == id {
                proof {
                    self@.lemma_position(id, i as int);
                }
                return Some(i);
            }
            i += 1;
        }
        None
    }

    /// Tells whether the list is well formed. A list made by `default` and
    /// the operations always is; one read from a document need not be.
    pub fn is_well_formed(&self) -> (r: bool)
        ensures
            r == self@.well_formed(),
    {
        let n = self.tasks.len();
        let mut j: usize = 0;
        while j < n
            invariant
                n == self.tasks.len(),
                j <= n,
                forall|b: int| 0 <= b < j ==> (#[trigger] self@.tasks[b]).id < self.next_id,
                forall|a: int, b: int|
                    0 <= a < b < j ==> (#[trigger] self@.tasks[a]).id != (
                    #[trigger] self@.tasks[b]).id,
            decreases n - j,
        {
            if self.tasks[j].id >= self.next_id {
                return false;
            }
            let mut i: usize = 0;
            while i < j
                invariant
                    n == self.tasks.len(),
                    i <= j < n,
                    forall|a: int| 0 <= a < i ==> (#[trigger] self@.tasks[a]).id != self@.tasks[j as int].id,
                decreases j - i,
            {
                if self.tasks[i].id == self.tasks[j].id {
                    assert(self@.tasks[i as int].id == self@.tasks[j as int].id);
                    return false;
                }
                i += 1;
            }
            j += 1;
        }
        true
    }

    /// Adds a task of the given name, with the status `NotStarted`, and
    /// returns it. Its identifier is `next_id`, which then goes up by one.
    ///
    /// A blank name is refused, and so is any name once `next_id` has reached
    /// the largest number: the list then stays as it is.
    pub fn add_task(&mut self, task_name: String) -> (r: Result<Task, AddError>)
        ensures
            final(self)@ == old(self)@.add(task_name@),
            match r {
                Ok(task) => {
                    &&& old(self)@.accepts(task_name@)
                    &&& task@ == old(self)@.new_task(task_name@)
                    &&& final(self)@.tasks == old(self)@.tasks.push(task@)
                    &&& final(self).next_id == old(self).next_id + 1
                },
                Err(AddError::InvalidName) => is_blank(task_name@) && *final(self) == *old(self),
                Err(AddError::IdsExhausted) => !is_blank(task_name@) && old(self).next_id
                    == u64::MAX && *final(self) == *old(self),
            },
            old(self)@.well_formed() ==> final(self)@.well_formed(),
    {
        if name_is_blank(task_name.as_str()) {
            return Err(AddError::InvalidName);
        }
        if self.next_id == u64::MAX {
            return Err(AddError::IdsExhausted);
        }
        let id = self.next_id;
        let stored = Task { id, task_name: task_name.clone(), status: TaskStatus::NotStarted };
        self.tasks.push(stored);
        self.next_id = id + 1;
        assert(self@.tasks =~= old(self)@.tasks.push(old(self)@.new_task(task_name@)));
        Ok(Task { id, task_name, status: TaskStatus::NotStarted })
    }

    /// The tasks, in the order in which the list holds them.
    pub fn list_tasks(&self) -> (r: &Vec<Task>)
        ensures
            r@.map_values(|t: Task| t@) == self@.tasks,
    {
        &self.tasks
    }

    /// Deletes the first task with the identifier `id` and tells whether
    /// there was one. The last task of the list moves to its place, so the
    /// order of the list may change. `next_id` stays.
    pub fn delete_task(&mut self, id: u64) -> (r: bool)
        ensures
            r == old(self)@.has_id(id),
            final(self)@ == old(self)@.delete(id),
            final(self).next_id == old(self).next_id,
            !r ==> *final(self) == *old(self),
            r ==> old(self)@.is_position(id, old(self)@.position(id)),
            r ==> final(self)@.tasks.len() == old(self)@.tasks.len() - 1,
            r ==> final(self)@.tasks.to_multiset() == old(self)@.tasks.to_multiset().remove(
                old(self)@.tasks[old(self)@.position(id)],
            ),
            old(self)@.well_formed() ==> final(self)@.well_formed(),
    {
        match self.find(id) {
            Some(k) => {
                proof {
                    self@.lemma_delete_removes_one(id);
                }
                self.tasks.swap_remove(k);
                assert(self@.tasks =~= old(self)@.remove_at(k as int).tasks);
                true
            },
            None => false,
        }
    }

    /// Gives the first task with the identifier `id` the status `status` and
    /// tells whether there was one. Any status may follow any other.
    pub fn update_status(&mut self, id: u64, status: TaskStatus) -> (r: bool)
        ensures
            r == old(self)@.has_id(id),
            final(self)@ == old(self)@.update_status(id, status),
            !r ==> *final(self) == *old(self),
            r ==> old(self)@.is_position(id, old(self)@.position(id)),
            old(self)@.well_formed() ==> final(self)@.well_formed(),
    {
        match self.find(id) {
            Some(k) => {
                self.tasks[k].status = status;
                assert(self@.tasks =~= old(self)@.update_status(id, status).tasks);
                true
            },
            None => false,
        }
    }
}

} // verus!
