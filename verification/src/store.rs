//! The in-memory task store: an ordered collection of tasks in which no
//! two tasks share an id.

use vstd::prelude::*;

use crate::ids::fresh_id;
use crate::task::Task;
use crate::task::TaskModel;

verus! {

/// The models of a sequence of tasks, in the same order.
pub open spec fn models_of(ts: Seq<Task>) -> Seq<TaskModel> {
    ts.map_values(|t: Task| t@)
}

/// Whether some task in `s` carries the id `id`.
pub open spec fn has_id(s: Seq<TaskModel>, id: Seq<char>) -> bool {
    exists|i: int| 0 <= i < s.len() && s[i].id == id
}

/// No two tasks in `s` share an id.
pub open spec fn distinct_ids(s: Seq<TaskModel>) -> bool {
    forall|i: int, j: int| 0 <= i < j < s.len() ==> s[i].id != s[j].id
}

/// Marking a task done keeps its id and title and sets the flag.
pub open spec fn mark_done_model(t: TaskModel) -> TaskModel {
    TaskModel { completed: true, ..t }
}

/// Completing by id: the task carrying `id` — unique when the ids of `s`
/// are distinct — gets its flag set in place; without such a task the
/// sequence is unchanged.
pub open spec fn complete_model(s: Seq<TaskModel>, id: Seq<char>) -> Seq<TaskModel> {
    if has_id(s, id) {
        let i = choose|i: int| 0 <= i < s.len() && s[i].id == id;
        s.update(i, mark_done_model(s[i]))
    } else {
        s
    }
}

/// Removing by id: the task carrying `id` — unique when the ids of `s`
/// are distinct — leaves the sequence; without such a task the sequence
/// is unchanged.
pub open spec fn remove_model(s: Seq<TaskModel>, id: Seq<char>) -> Seq<TaskModel> {
    if has_id(s, id) {
        let i = choose|i: int| 0 <= i < s.len() && s[i].id == id;
        s.remove(i)
    } else {
        s
    }
}

/// The ordered collection of all tasks. Insertion order is preserved and
/// defines list order; ids are unique for the life of the store.
pub struct Store {
    tasks: Vec<Task>,
}

impl View for Store {
    type V = Seq<TaskModel>;

    closed spec fn view(&self) -> Seq<TaskModel> {
        models_of(self.tasks@)
    }
}

impl Store {
    /// The store's invariant: no id occurs twice.
    pub open spec fn wf(&self) -> bool {
        distinct_ids(self@)
    }

    /// A new store holds no tasks.
    pub fn new() -> (s: Store)
        ensures
            s@ == Seq::<TaskModel>::empty(),
            s.wf(),
    {
        let s = Store { tasks: Vec::new() };
        proof {
            assert(s@ =~= Seq::<TaskModel>::empty());
        }
        s
    }

    /// How many tasks the store holds.
    pub fn len(&self) -> (n: usize)
        ensures
            n == self@.len(),
    {
        self.tasks.len()
    }

    /// The position of the task carrying `id`, if any.
    fn index_of_id(&self, id: &String) -> (r: Option<usize>)
        ensures
            match r {
                Some(i) => i < self@.len() && self@[i as int].id == id@,
                None => !has_id(self@, id@),
            },
    {
        let n = self.tasks.len();
        let mut i: usize = 0;
        while i < n
            invariant
                n == self.tasks.len(),
                i <= n,
                forall|j: int| 0 <= j < i ==> self@[j].id != id@,
            decreases n - i,
        {
            if self.tasks[i].id == *id {
                return Some(i);
            }
            i = i + 1;
        }
        None
    }

    /// A snapshot copy of all tasks, in insertion order.
    pub fn list(&self) -> (r: Vec<Task>)
        ensures
            models_of(r@) == self@,
    {
        let n = self.tasks.len();
        let mut out: Vec<Task> = Vec::new();
        let mut i: usize = 0;
        while i < n
            invariant
                n == self.tasks.len(),
                i <= n,
                out@.len() == i,
                forall|j: int| 0 <= j < i ==> out@[j]@ == self@[j],
            decreases n - i,
        {
            let t = self.tasks[i].clone();
            proof {
                assert(t@ == self@[i as int]);
            }
            out.push(t);
            i = i + 1;
        }
        proof {
            assert forall|j: int| 0 <= j < models_of(out@).len() implies models_of(out@)[j]
                == self@[j] by {
                assert(out@[j]@ == self@[j]);
            }
            assert(models_of(out@) =~= self@);
        }
        out
    }

    /// Appends a task built from the given id and title, unless a task
    /// with that id is already present: the id invariant is never given
    /// up, whatever id the caller offers.
    pub fn add_with_id(&mut self, id: String, title: String) -> (r: Option<Task>)
        requires
            old(self).wf(),
        ensures
            final(self).wf(),
            match r {
                Some(t) => !has_id(old(self)@, id@) && (t@ == TaskModel {
                    id: id@,
                    title: title@,
                    completed: false,
                }) && final(self)@ == old(self)@.push(t@),
                None => has_id(old(self)@, id@) && final(self)@ == old(self)@,
            },
    {
        if self.index_of_id(&id).is_some() {
            return None;
        }
        let ghost s0 = self@;
        let task = Task { id, title, completed: false };
        let copy = task.clone();
        self.tasks.push(task);
        proof {
            assert forall|j: int| 0 <= j < self@.len() implies self@[j] == s0.push(copy@)[j] by {
            }
            assert(self@ =~= s0.push(copy@));
            assert forall|i: int, j: int| 0 <= i < j < self@.len() implies self@[i].id
                != self@[j].id by {
                if j < s0.len() {
                    assert(s0[i].id != s0[j].id);
                } else {
                    assert(s0[i].id != copy@.id);
                }
            }
        }
        Some(copy)
    }

    /// Appends a task with a freshly generated id and the given title.
    /// The id is random, so in the (practically impossible) event that it
    /// collides with one already stored, nothing is appended and `None`
    /// is returned rather than breaking the id invariant. A collision
    /// takes a stored id of the generated shape: in particular, on an
    /// empty store the append always succeeds.
    pub fn add(&mut self, title: String) -> (r: Option<Task>)
        requires
            old(self).wf(),
        ensures
            final(self).wf(),
            match r {
                Some(t) => !has_id(old(self)@, t@.id) && t@.title == title@ && !t@.completed
                    && final(self)@ == old(self)@.push(t@),
                None => final(self)@ == old(self)@,
            },
            r is None ==> exists|i: int|
                0 <= i < old(self)@.len() && old(self)@[i].id.len() == 36,
            old(self)@.len() == 0 ==> r is Some,
    {
        let id = fresh_id();
        let ghost idv = id@;
        let r = self.add_with_id(id, title);
        proof {
            if r is None {
                let i = choose|i: int| 0 <= i < old(self)@.len() && old(self)@[i].id == idv;
                assert(old(self)@[i].id.len() == 36);
            }
        }
        r
    }

    /// Sets the completed flag of the task carrying `id`, reporting
    /// whether such a task was found. Completing an already completed
    /// task succeeds again and changes nothing.
    pub fn complete(&mut self, id: &String) -> (found: bool)
        requires
            old(self).wf(),
        ensures
            final(self).wf(),
            found == has_id(old(self)@, id@),
            final(self)@ == complete_model(old(self)@, id@),
    {
        let ghost s0 = self@;
        match self.index_of_id(id) {
            Some(i) => {
                proof {
                    assert(has_id(s0, id@));
                }
                let t = &mut self.tasks[i];
                t.completed = true;
                proof {
                    let k = choose|k: int| 0 <= k < s0.len() && s0[k].id == id@;
                    assert(k == i);
                    assert forall|j: int| 0 <= j < self@.len() implies self@[j] == s0.update(
                        i as int,
                        mark_done_model(s0[i as int]),
                    )[j] by {
                    }
                    assert(self@ =~= s0.update(i as int, mark_done_model(s0[i as int])));
                    assert forall|a: int, b: int| 0 <= a < b < self@.len() implies self@[a].id
                        != self@[b].id by {
                        assert(s0[a].id != s0[b].id);
                        assert(self@[a].id == s0[a].id);
                        assert(self@[b].id == s0[b].id);
                    }
                }
                true
            },
            None => {
                false
            },
        }
    }

    /// Removes the task carrying `id`, reporting whether such a task was
    /// found; the other tasks keep their relative order.
    pub fn remove(&mut self, id: &String) -> (found: bool)
        requires
            old(self).wf(),
        ensures
            final(self).wf(),
            found == has_id(old(self)@, id@),
            final(self)@ == remove_model(old(self)@, id@),
    {
        let ghost s0 = self@;
        match self.index_of_id(id) {
            Some(i) => {
                proof {
                    assert(has_id(s0, id@));
                }
                self.tasks.remove(i);
                proof {
                    let k = choose|k: int| 0 <= k < s0.len() && s0[k].id == id@;
                    assert(k == i);
                    assert forall|j: int| 0 <= j < self@.len() implies self@[j] == s0.remove(
                        i as int,
                    )[j] by {
                    }
                    assert(self@ =~= s0.remove(i as int));
                    assert forall|a: int, b: int| 0 <= a < b < self@.len() implies self@[a].id
                        != self@[b].id by {
                        let a0: int = if a < i { a } else { a + 1 };
                        let b0: int = if b < i { b } else { b + 1 };
                        assert(self@[a].id == s0[a0].id);
                        assert(self@[b].id == s0[b0].id);
                        assert(s0[a0].id != s0[b0].id);
                    }
                }
                true
            },
            None => {
                false
            },
        }
    }

    /// Marks the task carrying `id` as done and returns the response
    /// body: "Marked as done" when the task was found, "Todo not found"
    /// otherwise. The two outcomes differ only in the body, never in the
    /// response status.
    pub fn mark_done(&mut self, id: &String) -> (r: &'static str)
        requires
            old(self).wf(),
        ensures
            final(self).wf(),
            final(self)@ == complete_model(old(self)@, id@),
            has_id(old(self)@, id@) ==> r@ == "Marked as done"@,
            !has_id(old(self)@, id@) ==> r@ == "Todo not found"@,
    {
        let found = self.complete(id);
        if found {
            "Marked as done"
        } else {
            "Todo not found"
        }
    }

    /// Removes the task carrying `id` and returns the response body:
    /// "Deleted" when the task was found, "Todo not found" otherwise.
    /// The two outcomes differ only in the body, never in the response
    /// status.
    pub fn delete_todo(&mut self, id: &String) -> (r: &'static str)
        requires
            old(self).wf(),
        ensures
            final(self).wf(),
            final(self)@ == remove_model(old(self)@, id@),
            has_id(old(self)@, id@) ==> r@ == "Deleted"@,
            !has_id(old(self)@, id@) ==> r@ == "Todo not found"@,
    {
        let found = self.remove(id);
        if found {
            "Deleted"
        } else {
            "Todo not found"
        }
    }
}

} // verus!
