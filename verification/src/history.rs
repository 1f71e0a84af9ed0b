//! What holds of a task list over any run of operations.

use vstd::prelude::*;
use crate::task::TaskStatus;
use crate::todo::TodoView;

verus! {

/// One operation on a task list.
pub enum Op {
    /// Add a task of this name.
    Add(Seq<char>),
    /// Delete the task with this identifier.
    Delete(u64),
    /// Give the task with this identifier this status.
    UpdateStatus(u64, TaskStatus),
}

impl TodoView {
    /// The list after one operation.
    pub open spec fn apply(self, op: Op) -> TodoView {
        match op {
            Op::Add(name) => self.add(name),
            Op::Delete(id) => self.delete(id),
            Op::UpdateStatus(id, status) => self.update_status(id, status),
        }
    }

    /// The list after the operations `ops`, done one after the other.
    pub open spec fn run(self, ops: Seq<Op>) -> TodoView
        decreases ops.len(),
    {
        if ops.len() == 0 {
            self
        } else {
            self.run(ops.drop_last()).apply(ops.last())
        }
    }

    /// The identifiers that the operations `ops` gave to new tasks, in the
    /// order in which the tasks were added.
    pub open spec fn issued(self, ops: Seq<Op>) -> Seq<u64>
        decreases ops.len(),
    {
        if ops.len() == 0 {
            Seq::empty()
        } else {
            let before = self.run(ops.drop_last());
            let earlier = self.issued(ops.drop_last());
            match ops.last() {
                Op::Add(name) => if before.accepts(name) {
                    earlier.push(before.next_id)
                } else {
                    earlier
                },
                _ => earlier,
            }
        }
    }

    /// No operation brings `next_id` down, and every identifier given out
    /// lies between the `next_id` of the start and that of the end.
    pub proof fn lemma_issued_bounds(self, ops: Seq<Op>)
        ensures
            self.next_id <= self.run(ops).next_id,
            forall|i: int|
                0 <= i < self.issued(ops).len() ==> self.next_id <= (#[trigger] self.issued(
                    ops,
                )[i]) < self.run(ops).next_id,
        decreases ops.len(),
    {
        if ops.len() > 0 {
            self.lemma_issued_bounds(ops.drop_last());
            let before = self.run(ops.drop_last());
            let earlier = self.issued(ops.drop_last());
            let ids = self.issued(ops);
            assert(before.next_id <= before.apply(ops.last()).next_id);
            assert forall|i: int| 0 <= i < ids.len() implies self.next_id <= (#[trigger] ids[i])
                < self.run(ops).next_id by {
                if i < earlier.len() {
                    assert(ids[i] == earlier[i]);
                }
            }
        }
    }

    /// Over any run of additions, deletions and changes of status, the
    /// identifiers of the tasks added go strictly up; so no two of them are
    /// equal, whatever was deleted in between.
    pub proof fn lemma_issued_increasing(self, ops: Seq<Op>)
        ensures
            forall|i: int, j: int|
                0 <= i < j < self.issued(ops).len() ==> (#[trigger] self.issued(ops)[i]) < (
                #[trigger] self.issued(ops)[j]),
            forall|i: int, j: int|
                0 <= i < self.issued(ops).len() && 0 <= j < self.issued(ops).len() && i != j
                    ==> (#[trigger] self.issued(ops)[i]) != (#[trigger] self.issued(ops)[j]),
        decreases ops.len(),
    {
        let ids = self.issued(ops);
        if ops.len() > 0 {
            self.lemma_issued_increasing(ops.drop_last());
            self.lemma_issued_bounds(ops.drop_last());
            let earlier = self.issued(ops.drop_last());
            assert forall|i: int, j: int| 0 <= i < j < ids.len() implies (#[trigger] ids[i]) < (
            #[trigger] ids[j]) by {
                assert(ids[i] == earlier[i]);
                if j < earlier.len() {
                    assert(ids[j] == earlier[j]);
                }
            }
        }
        assert forall|i: int, j: int| 0 <= i < ids.len() && 0 <= j < ids.len() && i != j implies (
        #[trigger] ids[i]) != (#[trigger] ids[j]) by {
            if i < j {
                assert(ids[i] < ids[j]);
            } else {
                assert(ids[j] < ids[i]);
            }
        }
    }

    /// A well-formed list stays well formed over any run of operations.
    pub proof fn lemma_run_well_formed(self, ops: Seq<Op>)
        requires
            self.well_formed(),
        ensures
            self.run(ops).well_formed(),
        decreases ops.len(),
    {
        if ops.len() > 0 {
            self.lemma_run_well_formed(ops.drop_last());
            self.run(ops.drop_last()).lemma_apply_well_formed(ops.last());
        }
    }

    /// A well-formed list stays well formed under each operation.
    pub proof fn lemma_apply_well_formed(self, op: Op)
        requires
            self.well_formed(),
        ensures
            self.apply(op).well_formed(),
    {
        match op {
            Op::Add(name) => {},
            Op::Delete(id) => {
                if self.has_id(id) {
                    self.lemma_present_has_position(id);
                }
            },
            Op::UpdateStatus(id, status) => {
                if self.has_id(id) {
                    self.lemma_present_has_position(id);
                }
            },
        }
    }

    /// In a well-formed list a new task gets an identifier that no task of
    /// the list has.
    pub proof fn lemma_new_id_is_fresh(self, name: Seq<char>)
        requires
            self.well_formed(),
        ensures
            !self.has_id(self.new_task(name).id),
    {
    }
}

} // verus!
