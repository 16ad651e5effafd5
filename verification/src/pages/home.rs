//! The home page in reconciliation mode.
//!
//! The page owns no tasks. It holds one version token per kind of mutation and
//! the list that the last settled read returned. The read is keyed on all three
//! tokens, so issuing any mutation makes the settled read stale and a new read
//! due. A read that comes back for a key that is no longer current is dropped.

use vstd::prelude::*;
use crate::error::StorageError;
use crate::models::todo::{views, Todo, TodoView};

verus! {

/// The kinds of mutation that a page can issue.
#[derive(Clone, Copy, Debug, PartialEq, Eq, Structural)]
pub enum MutationKind {
    /// A task is created.
    Add,
    /// A task is removed.
    Delete,
    /// A task's status is set.
    Update,
}

/// One counter per kind of mutation; each counts the mutations of its kind.
#[derive(Clone, Copy, Debug, PartialEq, Eq, Structural)]
pub struct VersionTokens {
    /// Mutations of kind `Add` issued so far.
    pub add: usize,
    /// Mutations of kind `Delete` issued so far.
    pub delete: usize,
    /// Mutations of kind `Update` issued so far.
    pub update: usize,
}

impl VersionTokens {
    /// The token of one kind.
    pub open spec fn token(self, kind: MutationKind) -> usize {
        match kind {
            MutationKind::Add => self.add,
            MutationKind::Delete => self.delete,
            MutationKind::Update => self.update,
        }
    }

    /// The tuple of all three tokens, on which a read is keyed.
    pub open spec fn key_tuple(self) -> (usize, usize, usize) {
        (self.add, self.delete, self.update)
    }

    /// The tokens after one more mutation of the given kind: that kind's token
    /// is one higher, the other two are the same.
    pub open spec fn bumped(self, kind: MutationKind) -> VersionTokens
        recommends
            self.token(kind) < usize::MAX,
    {
        match kind {
            MutationKind::Add => VersionTokens { add: (self.add + 1) as usize, ..self },
            MutationKind::Delete => VersionTokens { delete: (self.delete + 1) as usize, ..self },
            MutationKind::Update => VersionTokens { update: (self.update + 1) as usize, ..self },
        }
    }

    /// `self` is at most `other` in every token.
    pub open spec fn at_most(self, other: VersionTokens) -> bool {
        &&& self.add <= other.add
        &&& self.delete <= other.delete
        &&& self.update <= other.update
    }

    /// The tokens before any mutation was issued.
    pub fn new() -> (tokens: Self)
        ensures
            tokens == (VersionTokens { add: 0, delete: 0, update: 0 }),
    {
        VersionTokens { add: 0, delete: 0, update: 0 }
    }

    /// The token of the given kind.
    pub fn get(&self, kind: MutationKind) -> (token: usize)
        ensures
            token == self.token(kind),
    {
        match kind {
            MutationKind::Add => self.add,
            MutationKind::Delete => self.delete,
            MutationKind::Update => self.update,
        }
    }

    /// The key of a read made now.
    pub fn key(&self) -> (key: (usize, usize, usize))
        ensures
            key == self.key_tuple(),
    {
        (self.add, self.delete, self.update)
    }

    /// Whether one more mutation of the given kind can be counted.
    pub fn can_issue(&self, kind: MutationKind) -> (room: bool)
        ensures
            room == (self.token(kind) < usize::MAX),
    {
        self.get(kind) < usize::MAX
    }

    /// Counts one mutation of the given kind.
    pub fn issue(&mut self, kind: MutationKind)
        requires
            old(self).token(kind) < usize::MAX,
        ensures
            *final(self) == old(self).bumped(kind),
            final(self).token(kind) == old(self).token(kind) + 1,
    {
        match kind {
            MutationKind::Add => {
                self.add = self.add + 1;
            },
            MutationKind::Delete => {
                self.delete = self.delete + 1;
            },
            MutationKind::Update => {
                self.update = self.update + 1;
            },
        }
    }
}

/// What the page shows for the result of a read: the tasks read, or no task
/// where the read failed.
pub open spec fn shown_for(result: Result<Vec<Todo>, StorageError>) -> Seq<TodoView> {
    match result {
        Ok(todos) => views(todos@),
        Err(_) => Seq::empty(),
    }
}

/// The tasks that the page shows for the result of a read: those read, in the
/// order in which they were read, or none where the read failed.
pub fn shown(result: Result<Vec<Todo>, StorageError>) -> (todos: Vec<Todo>)
    ensures
        views(todos@) == shown_for(result),
{
    match result {
        Ok(todos) => todos,
        Err(_) => {
            let none: Vec<Todo> = Vec::new();
            assert(views(none@) =~= Seq::<TodoView>::empty());
            none
        },
    }
}

/// The state of the home page in reconciliation mode.
pub struct Home {
    versions: VersionTokens,
    settled: Option<VersionTokens>,
    todos: Vec<Todo>,
}

impl Home {
    /// The page's version tokens.
    pub closed spec fn versions(&self) -> VersionTokens {
        self.versions
    }

    /// The tokens that the settled read was keyed on, if a read has settled.
    pub closed spec fn settled(&self) -> Option<VersionTokens> {
        self.settled
    }

    /// The tasks that the page shows.
    pub closed spec fn shown(&self) -> Seq<TodoView> {
        views(self.todos@)
    }

    /// The settled read is never newer than the tokens, and a page on which no
    /// read has settled shows no task.
    pub open spec fn wf(&self) -> bool {
        match self.settled() {
            Some(key) => key.at_most(self.versions()),
            None => self.shown() == Seq::<TodoView>::empty(),
        }
    }

    /// Whether the settled read is out of date, so that a read is due.
    pub open spec fn is_stale(&self) -> bool {
        self.settled() != Some(self.versions())
    }

    /// A page on which nothing has happened: all tokens are zero, no read has
    /// settled, and the first read is due.
    pub fn new() -> (page: Self)
        ensures
            page.wf(),
            page.versions() == (VersionTokens { add: 0, delete: 0, update: 0 }),
            page.settled().is_none(),
            page.shown() == Seq::<TodoView>::empty(),
            page.is_stale(),
    {
        let page = Home { versions: VersionTokens::new(), settled: None, todos: Vec::new() };
        assert(views(page.todos@) =~= Seq::<TodoView>::empty());
        page
    }

    /// The key of a read made now: the tuple of all three tokens.
    pub fn key(&self) -> (key: (usize, usize, usize))
        ensures
            key == self.versions().key_tuple(),
    {
        self.versions.key()
    }

    /// The token of the given kind.
    pub fn version(&self, kind: MutationKind) -> (token: usize)
        ensures
            token == self.versions().token(kind),
    {
        self.versions.get(kind)
    }

    /// Whether the page can issue one more mutation of the given kind.
    pub fn can_issue(&self, kind: MutationKind) -> (room: bool)
        ensures
            room == (self.versions().token(kind) < usize::MAX),
    {
        self.versions.can_issue(kind)
    }

    /// Whether a read is due: none has settled yet, or a mutation was issued
    /// since the settled one was keyed.
    pub fn stale(&self) -> (due: bool)
        ensures
            due == self.is_stale(),
    {
        match self.settled {
            Some(key) => key.add != self.versions.add || key.delete != self.versions.delete
                || key.update != self.versions.update,
            None => true,
        }
    }

    /// Issues a mutation of the given kind and returns the key of the read that
    /// is now due.
    ///
    /// The kind's token goes up by exactly one and the other two stay. What the
    /// page shows does not change until the new read settles, but it is stale.
    pub fn issue(&mut self, kind: MutationKind) -> (key: (usize, usize, usize))
        requires
            old(self).wf(),
            old(self).versions().token(kind) < usize::MAX,
        ensures
            final(self).wf(),
            final(self).versions() == old(self).versions().bumped(kind),
            final(self).versions().token(kind) == old(self).versions().token(kind) + 1,
            final(self).settled() == old(self).settled(),
            final(self).shown() == old(self).shown(),
            final(self).is_stale(),
            key == final(self).versions().key_tuple(),
            key != old(self).versions().key_tuple(),
    {
        self.versions.issue(kind);
        self.versions.key()
    }

    /// Hands the page the result of the read that was keyed on `key`.
    ///
    /// Where `key` is the page's current key the read settles: the page shows
    /// the tasks read, or none where the read failed, and is no longer stale.
    /// Otherwise a mutation was issued while the read was under way: the result
    /// is dropped and the page is unchanged. Returns whether the read settled.
    pub fn settle(
        &mut self,
        key: (usize, usize, usize),
        result: Result<Vec<Todo>, StorageError>,
    ) -> (settled: bool)
        requires
            old(self).wf(),
        ensures
            final(self).wf(),
            final(self).versions() == old(self).versions(),
            settled == (key == old(self).versions().key_tuple()),
            settled ==> final(self).settled() == Some(old(self).versions())
                && final(self).shown() == shown_for(result) && !final(self).is_stale(),
            !settled ==> final(self).settled() == old(self).settled() && final(self).shown()
                == old(self).shown(),
    {
        if key.0 == self.versions.add && key.1 == self.versions.delete && key.2
            == self.versions.update {
            self.todos = shown(result);
            self.settled = Some(self.versions);
            true
        } else {
            false
        }
    }

    /// The tasks that the page shows, in the order in which they were read.
    pub fn todos(&self) -> (todos: &Vec<Todo>)
        ensures
            views(todos@) == self.shown(),
    {
        &self.todos
    }
}

} // verus!
