//! What holds of the store's operations, for every list of tasks.
//!
//! Each statement is about the lists that the contracts of `TaskStore` speak
//! of: `added`, `toggled`, `with_status` and `deleted`.

use vstd::prelude::*;
use crate::models::todo::TodoView;
use crate::store::{
    added, created, deleted, has_id, has_room, ids_distinct, lemma_next_id_above_all, next_id,
    toggled, with_status,
};

verus! {

/// The list after one add for each of the given texts, in their order.
pub open spec fn added_all(tasks: Seq<TodoView>, texts: Seq<Seq<char>>) -> Seq<TodoView>
    decreases texts.len(),
{
    if texts.len() == 0 {
        tasks
    } else {
        added(added_all(tasks, texts.drop_last()), texts.last())
    }
}

/// The next id of a list that holds a task is one more than the id of one of
/// its tasks, and above the ids of all of them: it follows the highest id.
pub proof fn lemma_next_id_follows_highest(tasks: Seq<TodoView>)
    requires
        tasks.len() > 0,
    ensures
        exists|i: int| 0 <= i < tasks.len() && (#[trigger] tasks[i]).id + 1 == next_id(tasks),
        forall|i: int| 0 <= i < tasks.len() ==> (#[trigger] tasks[i]).id < next_id(tasks),
    decreases tasks.len(),
{
    lemma_next_id_above_all(tasks);
    let front = tasks.drop_last();
    let last = tasks.len() - 1;
    if tasks.last().id >= next_id(front) {
        assert(tasks[last].id + 1 == next_id(tasks));
    } else {
        lemma_next_id_follows_highest(front);
        let i = choose|i: int| 0 <= i < front.len() && (#[trigger] front[i]).id + 1 == next_id(front);
        assert(tasks[i] == front[i]);
    }
}

/// An add gives the new task an id that no task of the list has, so the ids
/// stay pairwise distinct.
pub proof fn lemma_add_keeps_ids_distinct(tasks: Seq<TodoView>, text: Seq<char>)
    requires
        ids_distinct(tasks),
    ensures
        ids_distinct(added(tasks, text)),
        has_room(tasks) ==> !has_id(tasks, created(tasks, text).id),
{
    lemma_next_id_above_all(tasks);
}

/// After any sequence of adds the ids are pairwise distinct.
pub proof fn lemma_adds_keep_ids_distinct(tasks: Seq<TodoView>, texts: Seq<Seq<char>>)
    requires
        ids_distinct(tasks),
    ensures
        ids_distinct(added_all(tasks, texts)),
    decreases texts.len(),
{
    if texts.len() > 0 {
        lemma_adds_keep_ids_distinct(tasks, texts.drop_last());
        lemma_add_keeps_ids_distinct(added_all(tasks, texts.drop_last()), texts.last());
    }
}

/// Where an id is left, the list after an add is the old list and exactly one
/// more task behind it: it has the text added, is open, and its id is new.
pub proof fn lemma_add_appends_one(tasks: Seq<TodoView>, text: Seq<char>)
    requires
        has_room(tasks),
    ensures
        added(tasks, text).len() == tasks.len() + 1,
        added(tasks, text).drop_last() == tasks,
        added(tasks, text).last().task == text,
        added(tasks, text).last().status == false,
        added(tasks, text).last().id == next_id(tasks),
        !has_id(tasks, added(tasks, text).last().id),
{
    lemma_next_id_above_all(tasks);
    assert(added(tasks, text).drop_last() =~= tasks);
}

/// A toggle changes one status at most: length, ids and texts stay as they
/// were, and so does the status of every task with another id.
pub proof fn lemma_toggle_flips_only_status(tasks: Seq<TodoView>, id: u32)
    ensures
        toggled(tasks, id).len() == tasks.len(),
        forall|i: int|
            0 <= i < tasks.len() ==> {
                &&& (#[trigger] toggled(tasks, id)[i]).id == tasks[i].id
                &&& toggled(tasks, id)[i].task == tasks[i].task
                &&& toggled(tasks, id)[i].status == if tasks[i].id == id {
                    !tasks[i].status
                } else {
                    tasks[i].status
                }
            },
{
}

/// Two toggles of the same id give the list back as it was.
pub proof fn lemma_toggle_twice(tasks: Seq<TodoView>, id: u32)
    ensures
        toggled(toggled(tasks, id), id) == tasks,
{
    assert(toggled(toggled(tasks, id), id) =~= tasks);
}

/// A toggle of an id that no task has changes nothing.
pub proof fn lemma_toggle_absent(tasks: Seq<TodoView>, id: u32)
    requires
        !has_id(tasks, id),
    ensures
        toggled(tasks, id) == tasks,
{
    assert(toggled(tasks, id) =~= tasks);
}

/// Setting the status of an id that no task has changes nothing.
pub proof fn lemma_set_status_absent(tasks: Seq<TodoView>, id: u32, status: bool)
    requires
        !has_id(tasks, id),
    ensures
        with_status(tasks, id, status) == tasks,
{
    assert(with_status(tasks, id, status) =~= tasks);
}

/// Setting a task's status to the opposite of the one it has is a toggle of
/// that task.
pub proof fn lemma_set_opposite_status_is_toggle(tasks: Seq<TodoView>, k: int)
    requires
        ids_distinct(tasks),
        0 <= k < tasks.len(),
    ensures
        with_status(tasks, tasks[k].id, !tasks[k].status) == toggled(tasks, tasks[k].id),
{
    let id = tasks[k].id;
    assert forall|i: int| 0 <= i < tasks.len() implies with_status(tasks, id, !tasks[k].status)[i]
        == toggled(tasks, id)[i] by {
        if tasks[i].id == id {
            assert(i == k);
        }
    }
    assert(with_status(tasks, id, !tasks[k].status) =~= toggled(tasks, id));
}

/// Setting a status twice is the same as setting the second one.
pub proof fn lemma_set_status_twice(tasks: Seq<TodoView>, id: u32, first: bool, second: bool)
    ensures
        with_status(with_status(tasks, id, first), id, second) == with_status(tasks, id, second),
{
    assert(with_status(with_status(tasks, id, first), id, second) =~= with_status(
        tasks,
        id,
        second,
    ));
}

/// After a delete no task has the deleted id, and the tasks that are left are
/// those of the old list that have another id.
pub proof fn lemma_delete_removes_id(tasks: Seq<TodoView>, id: u32)
    ensures
        !has_id(deleted(tasks, id), id),
        forall|t: TodoView| deleted(tasks, id).contains(t) <==> tasks.contains(t) && t.id != id,
{
    let keep = |t: TodoView| t.id != id;
    let rest = deleted(tasks, id);
    assert forall|i: int| 0 <= i < rest.len() implies (#[trigger] rest[i]).id != id by {
        tasks.lemma_filter_pred(keep, i);
    }
    assert forall|t: TodoView| rest.contains(t) <==> tasks.contains(t) && t.id != id by {
        if rest.contains(t) {
            tasks.lemma_filter_contains_rev(keep, t);
            let i = choose|i: int| 0 <= i < rest.len() && rest[i] == t;
            tasks.lemma_filter_pred(keep, i);
        }
        if tasks.contains(t) && t.id != id {
            let i = choose|i: int| 0 <= i < tasks.len() && tasks[i] == t;
            tasks.lemma_filter_contains(keep, i);
        }
    }
}

/// A delete of an id that no task has changes nothing.
pub proof fn lemma_delete_absent(tasks: Seq<TodoView>, id: u32)
    requires
        !has_id(tasks, id),
    ensures
        deleted(tasks, id) == tasks,
    decreases tasks.len(),
{
    let keep = |t: TodoView| t.id != id;
    reveal(Seq::filter);
    if tasks.len() > 0 {
        let front = tasks.drop_last();
        assert forall|i: int| 0 <= i < front.len() implies (#[trigger] front[i]).id != id by {
            assert(tasks[i] == front[i]);
        }
        lemma_delete_absent(front, id);
        assert(tasks[tasks.len() - 1].id != id);
        assert(front.push(tasks.last()) =~= tasks);
    } else {
        assert(tasks.filter(keep) =~= tasks);
    }
}

/// In a list with distinct ids, a delete of the id of the task at place `k`
/// takes that task out and leaves the others in their places.
pub proof fn lemma_delete_present(tasks: Seq<TodoView>, k: int)
    requires
        ids_distinct(tasks),
        0 <= k < tasks.len(),
    ensures
        deleted(tasks, tasks[k].id) == tasks.remove(k),
    decreases tasks.len(),
{
    let id = tasks[k].id;
    let keep = |t: TodoView| t.id != id;
    let front = tasks.drop_last();
    reveal(Seq::filter);
    if k == tasks.len() - 1 {
        assert forall|i: int| 0 <= i < front.len() implies (#[trigger] front[i]).id != id by {
            assert(tasks[i] == front[i]);
        }
        lemma_delete_absent(front, id);
        assert(tasks.remove(k) =~= front);
    } else {
        assert forall|i: int, j: int| 0 <= i < j < front.len() implies front[i].id
            != front[j].id by {
            assert(tasks[i] == front[i] && tasks[j] == front[j]);
        }
        assert(front[k] == tasks[k]);
        lemma_delete_present(front, k);
        assert(tasks.last().id != id);
        assert(tasks.remove(k) =~= front.remove(k).push(tasks.last()));
    }
}

} // verus!
