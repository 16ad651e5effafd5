//! A task: the only entity of the application.

use vstd::prelude::*;

verus! {

/// What a task is, as a mathematical value.
pub struct TodoView {
    /// Identifies the task within its store.
    pub id: u32,
    /// The text shown for the task.
    pub task: Seq<char>,
    /// `true` when the task is complete.
    pub status: bool,
}

/// A single todo entry.
#[derive(Debug, PartialEq, Eq)]
pub struct Todo {
    /// Identifies the task within its store.
    pub id: u32,
    /// The text shown for the task.
    pub task: String,
    /// `false` while the task is open, `true` once it is complete.
    pub status: bool,
}

impl View for Todo {
    type V = TodoView;

    open spec fn view(&self) -> TodoView {
        TodoView { id: self.id, task: self.task@, status: self.status }
    }
}

impl Clone for Todo {
    /// A copy with the same id, text and status.
    fn clone(&self) -> (copy: Self)
        ensures
            copy == *self,
    {
        Todo { id: self.id, task: self.task.clone(), status: self.status }
    }
}

impl Todo {
    /// A task as the store creates it: open, with the given id and text.
    pub fn new(id: u32, task: String) -> (todo: Self)
        ensures
            todo.id == id,
            todo.task == task,
            todo.status == false,
    {
        Todo { id, task, status: false }
    }
}

/// The mathematical values of a list of tasks, in the same order.
pub open spec fn views(todos: Seq<Todo>) -> Seq<TodoView> {
    todos.map_values(|t: Todo| t@)
}

} // verus!
