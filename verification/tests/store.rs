use todo_store::errors::GetError;
use todo_store::store::TaskStore;

#[test]
fn create_returns_fresh_incomplete_record() {
    let mut store = TaskStore::new();
    let a = store.add_task(String::from("buy milk")).unwrap();
    assert_eq!(a.title, "buy milk");
    assert!(!a.completed);
    let b = store.add_task(String::from("buy milk")).unwrap();
    assert_eq!(b.title, "buy milk");
    assert!(!b.completed);
    assert_ne!(a.id, b.id);
}

#[test]
fn deleted_identifiers_are_never_reassigned() {
    let mut store = TaskStore::new();
    let a = store.add_task(String::from("first")).unwrap();
    let b = store.add_task(String::from("second")).unwrap();
    assert_eq!(store.delete_task(&a.id).unwrap().rows, 1);
    let c = store.add_task(String::from("third")).unwrap();
    assert_ne!(c.id, a.id);
    assert_ne!(c.id, b.id);
}

#[test]
fn get_missing_is_not_found() {
    let mut store = TaskStore::new();
    assert!(matches!(store.get_task(&String::from("42")), Err(GetError::NotFound)));
    let t = store.add_task(String::from("present")).unwrap();
    let absent = format!("{}x", t.id);
    assert!(matches!(store.get_task(&absent), Err(GetError::NotFound)));
}

#[test]
fn list_on_empty_store_is_empty() {
    let store = TaskStore::new();
    let all = store.get_all_tasks().unwrap();
    assert!(all.is_empty());
}

#[test]
fn list_keeps_insertion_order() {
    let mut store = TaskStore::new();
    store.add_task(String::from("one")).unwrap();
    store.add_task(String::from("two")).unwrap();
    store.add_task(String::from("three")).unwrap();
    let all = store.get_all_tasks().unwrap();
    assert_eq!(all.len(), 3);
    assert_eq!(all[0].title, "one");
    assert_eq!(all[1].title, "two");
    assert_eq!(all[2].title, "three");
}

#[test]
fn double_toggle_restores_flag() {
    let mut store = TaskStore::new();
    let t = store.add_task(String::from("twice")).unwrap();
    assert_eq!(store.toggle_task(&t.id).unwrap().rows, 1);
    assert_eq!(store.toggle_task(&t.id).unwrap().rows, 1);
    let got = store.get_task(&t.id).unwrap();
    assert!(!got.completed);
}

#[test]
fn toggle_and_delete_missing_report_zero_rows() {
    let mut store = TaskStore::new();
    assert_eq!(store.toggle_task(&String::from("7")).unwrap().rows, 0);
    assert_eq!(store.delete_task(&String::from("7")).unwrap().rows, 0);
}

#[test]
fn delete_then_get_is_not_found() {
    let mut store = TaskStore::new();
    let t = store.add_task(String::from("short-lived")).unwrap();
    assert_eq!(store.delete_task(&t.id).unwrap().rows, 1);
    assert!(matches!(store.get_task(&t.id), Err(GetError::NotFound)));
}

#[test]
fn full_task_lifecycle() {
    let mut store = TaskStore::new();
    let t = store.add_task(String::from("buy milk")).unwrap();
    assert_eq!(t.title, "buy milk");
    assert!(!t.completed);
    assert_eq!(store.toggle_task(&t.id).unwrap().rows, 1);
    let after = store.get_task(&t.id).unwrap();
    assert_eq!(after.id, t.id);
    assert_eq!(after.title, "buy milk");
    assert!(after.completed);
    assert_eq!(store.delete_task(&t.id).unwrap().rows, 1);
    assert!(matches!(store.get_task(&t.id), Err(GetError::NotFound)));
}

#[test]
fn serialized_toggles_lose_no_update() {
    let mut store = TaskStore::new();
    let t = store.add_task(String::from("contended")).unwrap();
    let first = store.toggle_task(&t.id).unwrap();
    assert!(store.get_task(&t.id).unwrap().completed);
    let second = store.toggle_task(&t.id).unwrap();
    assert_eq!(first.rows, 1);
    assert_eq!(second.rows, 1);
    assert!(!store.get_task(&t.id).unwrap().completed);
}

#[test]
fn toggle_leaves_other_records_alone() {
    let mut store = TaskStore::new();
    let a = store.add_task(String::from("left")).unwrap();
    let b = store.add_task(String::from("right")).unwrap();
    assert_eq!(store.toggle_task(&b.id).unwrap().rows, 1);
    assert!(!store.get_task(&a.id).unwrap().completed);
    assert!(store.get_task(&b.id).unwrap().completed);
}
