//! The operation surface: the four operations as a page invokes them, each run
//! in a context that may or may not provide the store.

pub mod todo;

use vstd::prelude::*;
use crate::models::todo::TodoView;
use crate::store::{ids_distinct, TaskStore};

verus! {

/// The context in which an operation runs.
///
/// The store is handed to each operation through its context; nothing reaches
/// it any other way. A context without a store stands for storage that is not
/// available.
pub struct Context {
    store: Option<TaskStore>,
}

impl Context {
    /// The tasks of the store that the context provides, or `None` where it
    /// provides no store.
    pub closed spec fn tasks(&self) -> Option<Seq<TodoView>> {
        match self.store {
            Some(store) => Some(store@),
            None => None,
        }
    }

    /// The store that the context provides, if any, keeps its invariant.
    pub open spec fn wf(&self) -> bool {
        self.tasks() matches Some(tasks) ==> ids_distinct(tasks)
    }

    /// A context that provides no store.
    pub fn new() -> (cx: Self)
        ensures
            cx.wf(),
            cx.tasks().is_none(),
    {
        Context { store: None }
    }

    /// A context that provides the given store.
    pub fn with_store(store: TaskStore) -> (cx: Self)
        requires
            store.wf(),
        ensures
            cx.wf(),
            cx.tasks() == Some(store@),
    {
        Context { store: Some(store) }
    }

    /// Whether the context provides a store.
    pub fn has_store(&self) -> (provided: bool)
        ensures
            provided == self.tasks().is_some(),
    {
        self.store.is_some()
    }

    /// The store that the context provides, if any.
    pub fn store(&self) -> (store: Option<&TaskStore>)
        requires
            self.wf(),
        ensures
            store.is_some() == self.tasks().is_some(),
            store matches Some(s) ==> s.wf() && Some(s@) == self.tasks(),
    {
        self.store.as_ref()
    }

    /// The store that the context provides, if any, for an operation that
    /// changes it.
    pub(crate) fn store_mut(&mut self) -> (store: Option<&mut TaskStore>)
        requires
            old(self).wf(),
        ensures
            store.is_some() == old(self).tasks().is_some(),
            match store {
                Some(s) => s.wf() && Some(s@) == old(self).tasks() && final(self).tasks() == Some(
                    final(s)@,
                ),
                None => final(self).tasks().is_none(),
            },
    {
        self.store.as_mut()
    }
}

} // verus!
