//! One row of the task list: what it shows for a task, and what its two
//! buttons submit.

use vstd::prelude::*;
use vstd::string::StringExecFns;
use crate::models::todo::{Todo, TodoView};

verus! {

/// The class of the task's text: struck through once the task is complete.
pub open spec fn span_class_text(status: bool) -> Seq<char> {
    "text-md "@ + if status {
        "line-through"@
    } else {
        ""@
    }
}

/// The class of the completion button: dimmed once the task is complete.
pub open spec fn completed_button_class_text(status: bool) -> Seq<char> {
    "hover:cursor-pointer "@ + if !status {
        "opacity-100"@
    } else {
        "opacity-50"@
    }
}

/// The label of the completion button: what a click on it does.
pub open spec fn button_label_text(status: bool) -> Seq<char> {
    if !status {
        "Complete"@
    } else {
        "Undo"@
    }
}

/// A status written out as the update form submits it.
pub open spec fn status_text(status: bool) -> Seq<char> {
    if status {
        "true"@
    } else {
        "false"@
    }
}

/// A row of the task list.
///
/// The row starts as a copy of its task. In local mode it keeps its own status,
/// which a click on the completion button flips.
#[derive(Debug, PartialEq, Eq)]
pub struct TodoItem {
    /// The id of the task shown; rows are keyed by it.
    pub id: u32,
    /// The text of the task.
    pub task: String,
    /// Whether the row shows the task as complete.
    pub status: bool,
}

impl View for TodoItem {
    type V = TodoView;

    open spec fn view(&self) -> TodoView {
        TodoView { id: self.id, task: self.task@, status: self.status }
    }
}

impl Clone for TodoItem {
    /// A copy with the same id, text and status.
    fn clone(&self) -> (copy: Self)
        ensures
            copy == *self,
    {
        TodoItem { id: self.id, task: self.task.clone(), status: self.status }
    }
}

impl TodoItem {
    /// The row for a task: same id, same text, same status.
    pub fn new(todo: Todo) -> (row: Self)
        ensures
            row@ == todo@,
    {
        TodoItem { id: todo.id, task: todo.task, status: todo.status }
    }

    /// The key under which the row is rendered: the task's id.
    pub fn key(&self) -> (key: u32)
        ensures
            key == self.id,
    {
        self.id
    }

    /// A click on the completion button in local mode: the status flips, id and
    /// text stay.
    pub fn toggle(&mut self)
        ensures
            final(self).status == !old(self).status,
            final(self).id == old(self).id,
            final(self).task == old(self).task,
    {
        self.status = !self.status;
    }

    /// The class of the task's text.
    pub fn span_class(&self) -> (class: String)
        ensures
            class@ == span_class_text(self.status),
    {
        let decoration = if self.status {
            "line-through"
        } else {
            ""
        };
        String::from_str("text-md ").concat(decoration)
    }

    /// The class of the completion button.
    pub fn completed_button_class(&self) -> (class: String)
        ensures
            class@ == completed_button_class_text(self.status),
    {
        let opacity = if !self.status {
            "opacity-100"
        } else {
            "opacity-50"
        };
        String::from_str("hover:cursor-pointer ").concat(opacity)
    }

    /// The label of the completion button.
    pub fn button_label(&self) -> (label: &'static str)
        ensures
            label@ == button_label_text(self.status),
    {
        if !self.status {
            "Complete"
        } else {
            "Undo"
        }
    }

    /// The status that the update form submits for the row: the opposite of the
    /// one shown.
    pub fn submitted_status(&self) -> (status: bool)
        ensures
            status == !self.status,
    {
        !self.status
    }

    /// The value of the update form's status field: the submitted status,
    /// written out.
    pub fn status_value(&self) -> (value: String)
        ensures
            value@ == status_text(!self.status),
    {
        if !self.status {
            String::from_str("true")
        } else {
            String::from_str("false")
        }
    }
}

} // verus!
