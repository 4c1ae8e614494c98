//! The task record and its mathematical model.

use vstd::prelude::*;

verus! {

/// A single to-do item: an opaque unique id assigned by the server, a
/// title fixed at creation, and a completion flag that only ever moves
/// from `false` to `true`.
pub struct Task {
    pub id: String,
    pub title: String,
    pub completed: bool,
}

/// The mathematical model of a task: both strings as character
/// sequences, plus the completion flag.
pub struct TaskModel {
    pub id: Seq<char>,
    pub title: Seq<char>,
    pub completed: bool,
}

impl View for Task {
    type V = TaskModel;

    open spec fn view(&self) -> TaskModel {
        TaskModel { id: self.id@, title: self.title@, completed: self.completed }
    }
}

impl Clone for Task {
    fn clone(&self) -> (r: Self)
        ensures
            r@ == self@,
    {
        Task { id: self.id.clone(), title: self.title.clone(), completed: self.completed }
    }
}

} // verus!
