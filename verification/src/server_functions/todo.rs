//! The four operations on the store that a context provides.
//!
//! Each operation fails with `StorageUnavailable` where the context provides no
//! store, and then changes nothing. An id that no task has is no error for an
//! update or a delete: the operation succeeds and the store is as it was.

use vstd::prelude::*;
use crate::error::StorageError;
use crate::models::todo::{views, Todo};
use crate::server_functions::Context;
use crate::store::{added, deleted, has_room, toggled, with_status};

verus! {

/// The description of the failure of an add for which no id is left.
pub open spec fn no_id_left_text() -> Seq<char> {
    "no id is left for a new task"@
}

/// Lists all tasks of the store, in the store's order.
pub fn get_todos(cx: &Context) -> (result: Result<Vec<Todo>, StorageError>)
    requires
        cx.wf(),
    ensures
        match cx.tasks() {
            Some(tasks) => result matches Ok(todos) && views(todos@) == tasks,
            None => result matches Err(StorageError::StorageUnavailable),
        },
{
    match cx.store() {
        Some(store) => Ok(store.list()),
        None => Err(StorageError::StorageUnavailable),
    }
}

/// Adds an open task with the given text; the store assigns its id.
///
/// The text is taken as it is: no text is rejected. The add fails with
/// `StorageOperationFailed` where the store has no id left, and then the store
/// is as it was.
pub fn add_todo(cx: &mut Context, task: String) -> (result: Result<(), StorageError>)
    requires
        old(cx).wf(),
    ensures
        final(cx).wf(),
        final(cx).tasks() == match old(cx).tasks() {
            Some(tasks) => Some(added(tasks, task@)),
            None => None,
        },
        match old(cx).tasks() {
            Some(tasks) => if has_room(tasks) {
                result is Ok
            } else {
                result matches Err(StorageError::StorageOperationFailed(text)) && text@
                    == no_id_left_text()
            },
            None => result matches Err(StorageError::StorageUnavailable),
        },
{
    match cx.store_mut() {
        Some(store) => match store.add(task) {
            Some(_) => Ok(()),
            None => Err(
                StorageError::StorageOperationFailed("no id is left for a new task".to_owned()),
            ),
        },
        None => Err(StorageError::StorageUnavailable),
    }
}

/// Removes the task with the given id.
pub fn delete_todo(cx: &mut Context, id: u32) -> (result: Result<(), StorageError>)
    requires
        old(cx).wf(),
    ensures
        final(cx).wf(),
        final(cx).tasks() == match old(cx).tasks() {
            Some(tasks) => Some(deleted(tasks, id)),
            None => None,
        },
        match old(cx).tasks() {
            Some(_) => result is Ok,
            None => result matches Err(StorageError::StorageUnavailable),
        },
{
    match cx.store_mut() {
        Some(store) => {
            store.delete(id);
            Ok(())
        },
        None => Err(StorageError::StorageUnavailable),
    }
}

/// Sets the status of the task with the given id.
pub fn update_todo(cx: &mut Context, id: u32, status: bool) -> (result: Result<(), StorageError>)
    requires
        old(cx).wf(),
    ensures
        final(cx).wf(),
        final(cx).tasks() == match old(cx).tasks() {
            Some(tasks) => Some(with_status(tasks, id, status)),
            None => None,
        },
        match old(cx).tasks() {
            Some(_) => result is Ok,
            None => result matches Err(StorageError::StorageUnavailable),
        },
{
    match cx.store_mut() {
        Some(store) => {
            store.set_status(id, status);
            Ok(())
        },
        None => Err(StorageError::StorageUnavailable),
    }
}

/// Flips the status of the task with the given id.
pub fn toggle_todo(cx: &mut Context, id: u32) -> (result: Result<(), StorageError>)
    requires
        old(cx).wf(),
    ensures
        final(cx).wf(),
        final(cx).tasks() == match old(cx).tasks() {
            Some(tasks) => Some(toggled(tasks, id)),
            None => None,
        },
        match old(cx).tasks() {
            Some(_) => result is Ok,
            None => result matches Err(StorageError::StorageUnavailable),
        },
{
    match cx.store_mut() {
        Some(store) => {
            store.toggle(id);
            Ok(())
        },
        None => Err(StorageError::StorageUnavailable),
    }
}

} // verus!
