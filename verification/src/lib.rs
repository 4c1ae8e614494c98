//! An in-memory task list: short text tasks with a server-assigned unique
//! id, a title, and a completion flag. The store keeps tasks in insertion
//! order, guarantees that no two tasks share an id, and supports appending
//! a fresh task, listing a snapshot, marking a task done by id, and
//! removing a task by id.

mod ids;
mod laws;
mod store;
mod task;

pub use laws::creations_in_order;
pub use laws::lemma_complete_idempotent;
pub use laws::lemma_complete_missing_unchanged;
pub use laws::lemma_creation_order;
pub use laws::lemma_n_creations_in_order;
pub use laws::lemma_fresh_append_distinct;
pub use laws::lemma_remove_removes;
pub use store::Store;
pub use store::complete_model;
pub use store::distinct_ids;
pub use store::has_id;
pub use store::mark_done_model;
pub use store::models_of;
pub use store::remove_model;
pub use task::Task;
pub use task::TaskModel;
