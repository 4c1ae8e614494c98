use todo_store::Store;
use todo_store::Task;

fn titles(tasks: &Vec<Task>) -> Vec<String> {
    tasks.iter().map(|t| t.title.clone()).collect()
}

#[test]
fn creating_then_listing_single_task() {
    let mut store = Store::new();
    let created = store.add("Buy milk".to_string()).expect("fresh id collided");
    assert_eq!(created.title, "Buy milk");
    assert!(!created.completed);
    let tasks = store.list();
    assert_eq!(tasks.len(), 1);
    assert_eq!(tasks[0].title, "Buy milk");
    assert!(!tasks[0].completed);
    assert_eq!(tasks[0].id, created.id);
}

#[test]
fn creations_keep_order() {
    let mut store = Store::new();
    let a = store.add("first".to_string()).expect("fresh id collided");
    let b = store.add("second".to_string()).expect("fresh id collided");
    let c = store.add("third".to_string()).expect("fresh id collided");
    let tasks = store.list();
    assert_eq!(titles(&tasks), vec!["first", "second", "third"]);
    assert_ne!(a.id, b.id);
    assert_ne!(a.id, c.id);
    assert_ne!(b.id, c.id);
}

#[test]
fn many_creations_yield_distinct_ids() {
    let mut store = Store::new();
    for i in 0..50 {
        let task = store.add(format!("task {}", i)).expect("fresh id collided");
        // The generated id is a hyphenated UUID, 36 characters long.
        assert_eq!(task.id.len(), 36);
    }
    let tasks = store.list();
    assert_eq!(tasks.len(), 50);
    for i in 0..tasks.len() {
        for j in 0..i {
            assert_ne!(tasks[i].id, tasks[j].id);
        }
    }
}

#[test]
fn complete_is_idempotent() {
    let mut store = Store::new();
    let task = store.add("water plants".to_string()).expect("fresh id collided");
    assert!(store.complete(&task.id));
    let after_first: Vec<Task> = store.list();
    assert_eq!(after_first.len(), 1);
    assert!(after_first[0].completed);
    assert!(store.complete(&task.id));
    let after_second = store.list();
    assert_eq!(after_second.len(), 1);
    assert!(after_second[0].completed);
    assert_eq!(after_second[0].id, after_first[0].id);
    assert_eq!(after_second[0].title, after_first[0].title);
}

#[test]
fn complete_missing_reports_not_found() {
    let mut store = Store::new();
    store.add("untouched".to_string()).expect("fresh id collided");
    let missing = "no-such-id".to_string();
    assert!(!store.complete(&missing));
    assert_eq!(store.mark_done(&missing), "Todo not found");
    let tasks = store.list();
    assert_eq!(tasks.len(), 1);
    assert_eq!(tasks[0].title, "untouched");
    assert!(!tasks[0].completed);
}

#[test]
fn mark_done_reports_success() {
    let mut store = Store::new();
    let task = store.add("call home".to_string()).expect("fresh id collided");
    assert_eq!(store.mark_done(&task.id), "Marked as done");
    assert!(store.list()[0].completed);
}

#[test]
fn delete_then_delete_again() {
    let mut store = Store::new();
    let task = store.add("one-shot".to_string()).expect("fresh id collided");
    assert_eq!(store.delete_todo(&task.id), "Deleted");
    assert!(store.list().is_empty());
    assert_eq!(store.delete_todo(&task.id), "Todo not found");
    assert!(store.list().is_empty());
}

#[test]
fn delete_keeps_the_others_in_order() {
    let mut store = Store::new();
    store.add("keep a".to_string()).expect("fresh id collided");
    let middle = store.add("drop me".to_string()).expect("fresh id collided");
    store.add("keep b".to_string()).expect("fresh id collided");
    assert!(store.remove(&middle.id));
    assert_eq!(titles(&store.list()), vec!["keep a", "keep b"]);
}

#[test]
fn add_with_id_rejects_duplicate() {
    let mut store = Store::new();
    let first = store.add_with_id("fixed-id".to_string(), "original".to_string());
    assert!(first.is_some());
    let second = store.add_with_id("fixed-id".to_string(), "imposter".to_string());
    assert!(second.is_none());
    let tasks = store.list();
    assert_eq!(tasks.len(), 1);
    assert_eq!(tasks[0].title, "original");
}

#[test]
fn add_succeeds_when_no_stored_id_has_uuid_shape() {
    let mut store = Store::new();
    assert!(store.add_with_id("short-id".to_string(), "first".to_string()).is_some());
    // A fresh id is 36 characters long, so it cannot collide with the
    // 8-character id above: the append is owed to succeed.
    let task = store.add("second".to_string());
    assert!(task.is_some());
    assert_eq!(store.list().len(), 2);
}

#[test]
fn empty_title_is_accepted() {
    let mut store = Store::new();
    let task = store.add(String::new()).expect("fresh id collided");
    assert_eq!(task.title, "");
    assert_eq!(store.list().len(), 1);
}

#[test]
fn list_is_a_snapshot() {
    let mut store = Store::new();
    let task = store.add("snapshot".to_string()).expect("fresh id collided");
    let before = store.list();
    assert!(store.complete(&task.id));
    assert!(!before[0].completed);
    assert!(store.list()[0].completed);
}

#[test]
fn len_counts_tasks() {
    let mut store = Store::new();
    assert_eq!(store.len(), 0);
    store.add("a".to_string()).expect("fresh id collided");
    store.add("b".to_string()).expect("fresh id collided");
    assert_eq!(store.len(), 2);
}
