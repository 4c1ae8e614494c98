//! The laws of the store, stated over its model and proved once and for
//! all: appending keeps creation order, completing is idempotent and
//! leaves a store without the id untouched, removing really removes, and
//! fresh appends keep all ids distinct.

use vstd::prelude::*;

use crate::store::complete_model;
use crate::store::distinct_ids;
use crate::store::has_id;
use crate::store::mark_done_model;
use crate::store::remove_model;
use crate::task::TaskModel;

verus! {

/// Tasks are listed in creation order: appending a task adds exactly one
/// entry, keeps every existing task at its position, and places the new
/// task last. So any sequence of appends lists the tasks in the order
/// they were created.
pub proof fn lemma_creation_order(s: Seq<TaskModel>, t: TaskModel)
    ensures
        s.push(t).len() == s.len() + 1,
        forall|j: int| 0 <= j < s.len() ==> s.push(t)[j] == s[j],
        s.push(t)[s.len() as int] == t,
{
}

/// Whether `s` is exactly the result of creating one task per title in
/// `titles`, in order: as many tasks as titles, the task at each
/// position carrying the title created at that position, none of them
/// completed.
pub open spec fn creations_in_order(titles: Seq<Seq<char>>, s: Seq<TaskModel>) -> bool {
    s.len() == titles.len() && (forall|i: int|
        0 <= i < s.len() ==> s[i].title == titles[i] && !s[i].completed)
}

/// For every sequence of N creations the store returns exactly N tasks
/// in creation order, by induction over the creations: the empty store
/// is the result of none, and each successful creation — which appends
/// exactly one uncompleted task carrying the given title — extends the
/// result by that one title.
pub proof fn lemma_n_creations_in_order(titles: Seq<Seq<char>>, s: Seq<TaskModel>, t: TaskModel)
    requires
        creations_in_order(titles, s),
        !t.completed,
    ensures
        creations_in_order(Seq::<Seq<char>>::empty(), Seq::<TaskModel>::empty()),
        creations_in_order(titles.push(t.title), s.push(t)),
{
    let titles1 = titles.push(t.title);
    let s1 = s.push(t);
    assert forall|i: int| 0 <= i < s1.len() implies s1[i].title == titles1[i]
        && !s1[i].completed by {
        if i < s.len() {
            assert(s1[i] == s[i]);
            assert(titles1[i] == titles[i]);
        } else {
            assert(s1[i] == t);
            assert(titles1[i] == t.title);
        }
    }
}

/// Completing is idempotent: when the ids are distinct, completing the
/// same id twice succeeds both times and yields the same store as
/// completing it once.
pub proof fn lemma_complete_idempotent(s: Seq<TaskModel>, id: Seq<char>)
    requires
        distinct_ids(s),
    ensures
        has_id(complete_model(s, id), id) == has_id(s, id),
        complete_model(complete_model(s, id), id) == complete_model(s, id),
{
    if has_id(s, id) {
        let i = choose|i: int| 0 <= i < s.len() && s[i].id == id;
        let s1 = s.update(i, mark_done_model(s[i]));
        assert(s1[i].id == id);
        assert(has_id(s1, id));
        let k = choose|k: int| 0 <= k < s1.len() && s1[k].id == id;
        assert(s[k].id == id);
        assert(k == i);
        assert(mark_done_model(s1[i]) == s1[i]);
        assert(s1.update(k, mark_done_model(s1[k])) =~= s1);
    }
}

/// Completing an id that no task carries changes nothing.
pub proof fn lemma_complete_missing_unchanged(s: Seq<TaskModel>, id: Seq<char>)
    requires
        !has_id(s, id),
    ensures
        complete_model(s, id) == s,
{
}

/// Removing an id really removes it: when the ids are distinct, no task
/// in the result carries the id, exactly one entry is gone when one was
/// found, and a second removal of the same id changes nothing — it
/// reports "not found" where the first reported a deletion.
pub proof fn lemma_remove_removes(s: Seq<TaskModel>, id: Seq<char>)
    requires
        distinct_ids(s),
    ensures
        !has_id(remove_model(s, id), id),
        has_id(s, id) ==> remove_model(s, id).len() == s.len() - 1,
        !has_id(s, id) ==> remove_model(s, id) == s,
        remove_model(remove_model(s, id), id) == remove_model(s, id),
{
    if has_id(s, id) {
        let i = choose|i: int| 0 <= i < s.len() && s[i].id == id;
        let s1 = s.remove(i);
        assert forall|j: int| 0 <= j < s1.len() implies s1[j].id != id by {
            if j < i {
                assert(s1[j] == s[j]);
                assert(s[j].id != s[i].id);
            } else {
                assert(s1[j] == s[j + 1]);
                assert(s[i].id != s[j + 1].id);
            }
        }
        assert(!has_id(s1, id));
    }
}

/// No creation is lost and no two creations collide: appending a task
/// whose id is fresh grows the store by exactly one and keeps all ids
/// distinct. Since every append under the store's lock sees all earlier
/// tasks, any interleaving of creations ends with as many distinct ids
/// as successful creations.
pub proof fn lemma_fresh_append_distinct(s: Seq<TaskModel>, t: TaskModel)
    requires
        distinct_ids(s),
        !has_id(s, t.id),
    ensures
        distinct_ids(s.push(t)),
        s.push(t).len() == s.len() + 1,
{
    let s1 = s.push(t);
    assert forall|i: int, j: int| 0 <= i < j < s1.len() implies s1[i].id != s1[j].id by {
        if j < s.len() {
            assert(s[i].id != s[j].id);
        } else {
            assert(s1[i] == s[i]);
            assert(s[i].id != t.id);
        }
    }
}

} // verus!
