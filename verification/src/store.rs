//! The task store: the list of tasks and the four operations on it.
//!
//! The store keeps its tasks in insertion order and never holds two tasks with
//! the same id. A new task gets the id that follows the highest id in the
//! store, or 0 in an empty store.

use vstd::prelude::*;
use crate::models::todo::{views, Todo, TodoView};

verus! {

/// No two tasks of the list have the same id.
pub open spec fn ids_distinct(tasks: Seq<TodoView>) -> bool {
    forall|i: int, j: int| 0 <= i < j < tasks.len() ==> tasks[i].id != tasks[j].id
}

/// Some task of the list has the given id.
pub open spec fn has_id(tasks: Seq<TodoView>, id: u32) -> bool {
    exists|i: int| 0 <= i < tasks.len() && tasks[i].id == id
}

/// The id that follows the highest id of the list; 0 for the empty list.
pub open spec fn next_id(tasks: Seq<TodoView>) -> nat
    decreases tasks.len(),
{
    if tasks.len() == 0 {
        0
    } else {
        let before = next_id(tasks.drop_last());
        if tasks.last().id >= before {
            (tasks.last().id + 1) as nat
        } else {
            before
        }
    }
}

/// An id is left for one more task: the highest id is not the largest there is.
pub open spec fn has_room(tasks: Seq<TodoView>) -> bool {
    next_id(tasks) <= u32::MAX
}

/// The task that an add of `text` creates in the list: open, with the next id.
pub open spec fn created(tasks: Seq<TodoView>, text: Seq<char>) -> TodoView
    recommends
        has_room(tasks),
{
    TodoView { id: next_id(tasks) as u32, task: text, status: false }
}

/// The list after an add of `text`: the created task follows the old ones.
/// Where no id is left the list is as it was.
pub open spec fn added(tasks: Seq<TodoView>, text: Seq<char>) -> Seq<TodoView> {
    if has_room(tasks) {
        tasks.push(created(tasks, text))
    } else {
        tasks
    }
}

/// The list after a toggle of `id`: the status of the task with that id is
/// flipped, everything else is as it was.
pub open spec fn toggled(tasks: Seq<TodoView>, id: u32) -> Seq<TodoView> {
    tasks.map_values(
        |t: TodoView|
            if t.id == id {
                TodoView { status: !t.status, ..t }
            } else {
                t
            },
    )
}

/// The list after the status of `id` is set: the task with that id has the
/// given status, everything else is as it was.
pub open spec fn with_status(tasks: Seq<TodoView>, id: u32, status: bool) -> Seq<TodoView> {
    tasks.map_values(
        |t: TodoView|
            if t.id == id {
                TodoView { status: status, ..t }
            } else {
                t
            },
    )
}

/// The list after a delete of `id`: the tasks with another id, in their order.
pub open spec fn deleted(tasks: Seq<TodoView>, id: u32) -> Seq<TodoView> {
    tasks.filter(|t: TodoView| t.id != id)
}

/// Every id of the list is below `next_id`.
pub proof fn lemma_next_id_above_all(tasks: Seq<TodoView>)
    ensures
        forall|i: int| 0 <= i < tasks.len() ==> (#[trigger] tasks[i]).id < next_id(tasks),
    decreases tasks.len(),
{
    if tasks.len() > 0 {
        let front = tasks.drop_last();
        lemma_next_id_above_all(front);
        assert forall|i: int| 0 <= i < tasks.len() implies (#[trigger] tasks[i]).id < next_id(
            tasks,
        ) by {
            if i < tasks.len() - 1 {
                assert(front[i] == tasks[i]);
            }
        }
    }
}

/// `next_id` of a list with one more task at its end.
pub proof fn lemma_next_id_push(tasks: Seq<TodoView>, task: TodoView)
    ensures
        next_id(tasks.push(task)) == if task.id >= next_id(tasks) {
            (task.id + 1) as nat
        } else {
            next_id(tasks)
        },
{
    assert(tasks.push(task).drop_last() =~= tasks);
}

/// The in-memory task store.
pub struct TaskStore {
    todos: Vec<Todo>,
}

impl View for TaskStore {
    type V = Seq<TodoView>;

    closed spec fn view(&self) -> Seq<TodoView> {
        views(self.todos@)
    }
}

impl TaskStore {
    /// The store's invariant: the ids of its tasks are pairwise distinct.
    pub open spec fn wf(&self) -> bool {
        ids_distinct(self@)
    }

    /// An empty store.
    pub fn new() -> (store: Self)
        ensures
            store.wf(),
            store@ == Seq::<TodoView>::empty(),
    {
        let store = TaskStore { todos: Vec::new() };
        assert(store@ =~= Seq::<TodoView>::empty());
        store
    }

    /// A store that holds the given tasks in the given order, or `None` where
    /// two of them have the same id.
    pub fn from_todos(todos: Vec<Todo>) -> (store: Option<Self>)
        ensures
            store.is_some() == ids_distinct(views(todos@)),
            store matches Some(s) ==> s.wf() && s@ == views(todos@),
    {
        let ghost tasks = views(todos@);
        let mut j: usize = 0;
        while j < todos.len()
            invariant
                j <= todos.len(),
                tasks == views(todos@),
                forall|a: int, b: int| 0 <= a < b < j ==> tasks[a].id != tasks[b].id,
            decreases todos.len() - j,
        {
            let mut i: usize = 0;
            while i < j
                invariant
                    i <= j < todos.len(),
                    tasks == views(todos@),
                    forall|a: int| 0 <= a < i ==> tasks[a].id != tasks[j as int].id,
                decreases j - i,
            {
                if todos[i].id == todos[j].id {
                    assert(tasks[i as int].id == tasks[j as int].id);
                    return None;
                }
                i = i + 1;
            }
            j = j + 1;
        }
        Some(TaskStore { todos })
    }

    /// The number of tasks in the store.
    pub fn len(&self) -> (n: usize)
        ensures
            n == self@.len(),
    {
        self.todos.len()
    }

    /// The full list of tasks, in insertion order.
    pub fn list(&self) -> (todos: Vec<Todo>)
        ensures
            views(todos@) == self@,
    {
        let todos = self.todos.clone();
        assert(views(todos@) =~= views(self.todos@));
        todos
    }

    /// The id that the next add assigns, or `None` where the highest id in the
    /// store is the largest there is.
    pub fn next_id(&self) -> (id: Option<u32>)
        ensures
            id.is_some() == has_room(self@),
            id matches Some(n) ==> n == next_id(self@),
    {
        let mut next: u64 = 0;
        let mut i: usize = 0;
        while i < self.todos.len()
            invariant
                i <= self.todos.len(),
                next == next_id(views(self.todos@).take(i as int)),
                next <= u32::MAX + 1,
            decreases self.todos.len() - i,
        {
            let id: u32 = self.todos[i].id;
            proof {
                let seen = views(self.todos@).take(i as int);
                assert(views(self.todos@).take(i + 1) =~= seen.push(self.todos[i as int]@));
                lemma_next_id_push(seen, self.todos[i as int]@);
            }
            if id as u64 >= next {
                next = id as u64 + 1;
            }
            i = i + 1;
        }
        assert(views(self.todos@).take(i as int) =~= self@);
        if next <= u32::MAX as u64 {
            Some(next as u32)
        } else {
            None
        }
    }

    /// Adds a task with the given text and returns its id.
    ///
    /// The new task is open, stands after the others and has the id that
    /// follows the highest id in the store (0 in an empty store). Where the
    /// highest id is the largest there is, no id is left: the store is
    /// unchanged and `None` is returned.
    pub fn add(&mut self, task: String) -> (id: Option<u32>)
        requires
            old(self).wf(),
        ensures
            final(self).wf(),
            final(self)@ == added(old(self)@, task@),
            id.is_some() == has_room(old(self)@),
            id matches Some(n) ==> n == next_id(old(self)@),
    {
        match self.next_id() {
            Some(id) => {
                proof {
                    lemma_next_id_above_all(self@);
                }
                let ghost before = self.todos@;
                self.todos.push(Todo::new(id, task));
                assert(views(self.todos@) =~= added(views(before), task@));
                Some(id)
            },
            None => None,
        }
    }

    /// Flips the status of the task with the given id.
    ///
    /// Nothing else changes, and where no task has that id nothing changes at
    /// all.
    pub fn toggle(&mut self, id: u32)
        requires
            old(self).wf(),
        ensures
            final(self).wf(),
            final(self)@ == toggled(old(self)@, id),
    {
        let ghost before = self@;
        let mut i: usize = 0;
        while i < self.todos.len()
            invariant
                i <= self.todos.len(),
                self@.len() == before.len(),
                forall|k: int| 0 <= k < i ==> self@[k] == #[trigger] toggled(before, id)[k],
                forall|k: int| i <= k < before.len() ==> self@[k] == #[trigger] before[k],
            decreases self.todos.len() - i,
        {
            if self.todos[i].id == id {
                let flipped = !self.todos[i].status;
                self.todos[i].status = flipped;
            }
            i = i + 1;
        }
        assert(self@ =~= toggled(before, id));
    }

    /// Sets the status of the task with the given id.
    ///
    /// Nothing else changes, and where no task has that id nothing changes at
    /// all.
    pub fn set_status(&mut self, id: u32, status: bool)
        requires
            old(self).wf(),
        ensures
            final(self).wf(),
            final(self)@ == with_status(old(self)@, id, status),
    {
        let ghost before = self@;
        let mut i: usize = 0;
        while i < self.todos.len()
            invariant
                i <= self.todos.len(),
                self@.len() == before.len(),
                forall|k: int|
                    0 <= k < i ==> self@[k] == #[trigger] with_status(before, id, status)[k],
                forall|k: int| i <= k < before.len() ==> self@[k] == #[trigger] before[k],
            decreases self.todos.len() - i,
        {
            if self.todos[i].id == id {
                self.todos[i].status = status;
            }
            i = i + 1;
        }
        assert(self@ =~= with_status(before, id, status));
    }

    /// Removes the task with the given id.
    ///
    /// The other tasks stay, in their order; where no task has that id, all
    /// stay.
    pub fn delete(&mut self, id: u32)
        requires
            old(self).wf(),
        ensures
            final(self).wf(),
            final(self)@ == deleted(old(self)@, id),
    {
        let ghost before = self@;
        let ghost keep = |t: TodoView| t.id != id;
        let ghost seen: int = 0;
        let mut i: usize = 0;
        assert(before.take(0).filter(keep) =~= Seq::<TodoView>::empty()) by {
            reveal(Seq::filter);
        }
        assert(before.skip(0) =~= before);
        while i < self.todos.len()
            invariant
                0 <= seen <= before.len(),
                i <= self.todos.len(),
                self.todos.len() - i == before.len() - seen,
                self@ == before.take(seen).filter(keep) + before.skip(seen),
                before.take(seen).filter(keep).len() == i,
                keep == |t: TodoView| t.id != id,
            decreases self.todos.len() - i,
        {
            proof {
                assert(before.take(seen + 1) =~= before.take(seen).push(before[seen]));
                before.take(seen).lemma_filter_push(before[seen], keep);
                assert(self@[i as int] == before[seen]);
            }
            if self.todos[i].id == id {
                let ghost todos_before = self.todos@;
                self.todos.remove(i);
                assert(self@ =~= before.take(seen + 1).filter(keep) + before.skip(seen + 1)) by {
                    assert(views(todos_before.remove(i as int)) =~= views(todos_before).remove(
                        i as int,
                    ));
                }
            } else {
                assert(self@ =~= before.take(seen + 1).filter(keep) + before.skip(seen + 1));
                i = i + 1;
            }
            proof {
                seen = seen + 1;
            }
        }
        assert(before.take(seen) =~= before);
        assert(self@ =~= deleted(before, id));
        proof {
            lemma_deleted_keeps_distinct(before, id);
        }
    }
}

/// A delete leaves the ids of the list pairwise distinct.
pub proof fn lemma_deleted_keeps_distinct(tasks: Seq<TodoView>, id: u32)
    requires
        ids_distinct(tasks),
    ensures
        ids_distinct(deleted(tasks, id)),
    decreases tasks.len(),
{
    let keep = |t: TodoView| t.id != id;
    reveal(Seq::filter);
    if tasks.len() > 0 {
        let front = tasks.drop_last();
        lemma_deleted_keeps_distinct(front, id);
        let kept = front.filter(keep);
        assert forall|i: int| 0 <= i < kept.len() implies (#[trigger] kept[i]).id
            != tasks.last().id by {
            front.lemma_filter_contains_rev(keep, kept[i]);
            let k = choose|k: int| 0 <= k < front.len() && front[k] == kept[i];
            assert(tasks[k] == front[k]);
        }
    }
}

} // verus!
