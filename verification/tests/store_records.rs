use easytodo::task::model::{Date, Filter, Status, TaskField};
use easytodo::task::store::{select_tasks, FsTaskStore};

fn store() -> FsTaskStore {
    FsTaskStore::new("/tmp/easytodo-records".to_string())
}

#[test]
fn test_create_and_list() {
    let store = store();
    let task = store.new_record("Test Task", "Description here", None);
    assert_eq!(task.title, "Test Task");
    assert_eq!(task.status, Status::Open);

    let tasks = select_tasks(vec![task], Filter::All);
    assert_eq!(tasks.len(), 1);
}

#[test]
fn test_filter() {
    let store = store();
    let t1 = store.new_record("Task 1", "", None);
    let t2 = store.new_record("Task 2", "", None);
    let t2 = store.edit_record(t2, TaskField::Status, "done").unwrap();
    let all = vec![t1, t2];

    assert_eq!(select_tasks(all.clone(), Filter::All).len(), 2);
    assert_eq!(select_tasks(all.clone(), Filter::Todo).len(), 1);
    assert_eq!(select_tasks(all, Filter::Done).len(), 1);
}

#[test]
fn test_clone() {
    let store = store();
    let task = store.new_record("Original", "desc", Some(Date { year: 2026, month: 5, day: 10 }));
    let cloned = store.copy_record(&task);
    assert!(cloned.title.contains("Original"));
    assert_eq!(cloned.description, "desc");
    assert_eq!(cloned.due_date, task.due_date);
    assert_eq!(cloned.status, Status::Open);
    assert_ne!(cloned.id, task.id);
}

#[test]
fn test_update_title() {
    let store = store();
    let task = store.new_record("Old Title", "", None);
    let updated = store.edit_record(task, TaskField::Title, "New Title").unwrap();
    assert_eq!(updated.title, "New Title");
}
