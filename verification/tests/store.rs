use easytodo::errors::AppError;
use easytodo::task::model::{Date, Filter, Status, Task, TaskField, Timestamp};
use easytodo::task::store::{
    cloned_task, generate_id, new_task, select_tasks, split_task_file, task_description, task_file_text, updated_task,
    FsTaskStore,
};

fn at(secs: i64) -> Timestamp {
    Timestamp { secs, nanos: 0 }
}

fn task(id: &str, title: &str, status: Status, created: i64) -> Task {
    let mut t = new_task(id.to_string(), title, "", None, at(created));
    t.status = status;
    t
}

fn ids(ts: &[Task]) -> Vec<String> {
    ts.iter().map(|t| t.id.clone()).collect()
}

fn is_id_char(c: char) -> bool {
    c.is_ascii_digit() || c.is_ascii_lowercase()
}

#[test]
fn new_task_is_open_and_stamped() {
    let d = Date { year: 2026, month: 5, day: 10 };
    let t = new_task("abc123".to_string(), "Test Task", "Description here", Some(d), at(100));
    assert_eq!(t.id, "abc123");
    assert_eq!(t.title, "Test Task");
    assert_eq!(t.description, "Description here");
    assert_eq!(t.status, Status::Open);
    assert_eq!(t.created_at, at(100));
    assert_eq!(t.updated_at, at(100));
    assert_eq!(t.due_date, Some(d));
}

#[test]
fn clone_keeps_description_and_due_date() {
    let d = Date { year: 2026, month: 5, day: 10 };
    let mut original = new_task("aaaaaa".to_string(), "Original", "desc", Some(d), at(1));
    original.status = Status::Done;
    let copy = cloned_task(&original, "bbbbbb".to_string(), at(2));
    assert_eq!(copy.title, "Original (copy)");
    assert_eq!(copy.description, "desc");
    assert_eq!(copy.due_date, Some(d));
    assert_eq!(copy.status, Status::Open);
    assert_eq!(copy.id, "bbbbbb");
    assert_eq!(copy.created_at, at(2));
    assert_eq!(copy.updated_at, at(2));
}

#[test]
fn update_title_and_description() {
    let t = task("a", "Old Title", Status::Open, 1);
    let u = updated_task(t, TaskField::Title, "New Title", at(5)).unwrap();
    assert_eq!(u.title, "New Title");
    assert_eq!(u.updated_at, at(5));
    assert_eq!(u.created_at, at(1));
    let u = updated_task(u, TaskField::Description, "more", at(6)).unwrap();
    assert_eq!(u.description, "more");
    assert_eq!(u.title, "New Title");
}

#[test]
fn update_due_date_reads_the_date() {
    let t = task("a", "T", Status::Open, 1);
    let u = updated_task(t, TaskField::DueDate, "2026-05-10", at(2)).unwrap();
    assert_eq!(u.due_date, Some(Date { year: 2026, month: 5, day: 10 }));
    let u = updated_task(u, TaskField::DueDate, "", at(3)).unwrap();
    assert_eq!(u.due_date, None);
}

#[test]
fn update_due_date_refuses_a_bad_date() {
    let t = task("a", "T", Status::Open, 1);
    match updated_task(t, TaskField::DueDate, "2026-13-40", at(2)) {
        Err(AppError::ParseError(m)) => assert!(m.starts_with("Invalid date '2026-13-40': ")),
        other => panic!("unexpected {:?}", other),
    }
}

#[test]
fn update_status_in_any_case() {
    let t = task("a", "T", Status::Open, 1);
    let u = updated_task(t, TaskField::Status, "DONE", at(2)).unwrap();
    assert_eq!(u.status, Status::Done);
    let u = updated_task(u, TaskField::Status, "open", at(3)).unwrap();
    assert_eq!(u.status, Status::Open);
}

#[test]
fn update_status_refuses_an_unknown_status() {
    let t = task("a", "T", Status::Open, 1);
    match updated_task(t, TaskField::Status, "later", at(2)) {
        Err(AppError::ParseError(m)) => assert_eq!(m, "Invalid status 'later'. Use 'open' or 'done'"),
        other => panic!("unexpected {:?}", other),
    }
}

#[test]
fn list_is_newest_first_and_stable() {
    let ts = vec![
        task("old", "Old", Status::Open, 1),
        task("new", "New", Status::Open, 3),
        task("mid1", "Mid", Status::Open, 2),
        task("mid2", "Mid", Status::Open, 2),
    ];
    let r = select_tasks(ts, Filter::All);
    assert_eq!(ids(&r), vec!["new", "mid1", "mid2", "old"]);
}

#[test]
fn filters_pick_by_status() {
    let ts = vec![
        task("t1", "Task 1", Status::Open, 1),
        task("t2", "Task 2", Status::Done, 2),
        task("t3", "Task 3", Status::Open, 3),
    ];
    assert_eq!(ids(&select_tasks(ts.clone(), Filter::All)), vec!["t3", "t2", "t1"]);
    assert_eq!(ids(&select_tasks(ts.clone(), Filter::Todo)), vec!["t3", "t1"]);
    assert_eq!(ids(&select_tasks(ts, Filter::Done)), vec!["t2"]);
}

#[test]
fn filters_partition_the_list() {
    let ts = vec![
        task("a", "A", Status::Done, 5),
        task("b", "B", Status::Open, 4),
        task("c", "C", Status::Done, 6),
    ];
    let all = select_tasks(ts.clone(), Filter::All).len();
    let todo = select_tasks(ts.clone(), Filter::Todo).len();
    let done = select_tasks(ts, Filter::Done).len();
    assert_eq!(all, todo + done);
}

#[test]
fn select_of_nothing_is_nothing() {
    assert!(select_tasks(Vec::new(), Filter::All).is_empty());
}

#[test]
fn task_file_splits_front_matter_and_description() {
    let (yaml, desc) = split_task_file("---\nid: abc\ntitle: T\n---\n\n  Some text.  \n").unwrap();
    assert_eq!(yaml, "\nid: abc\ntitle: T\n");
    assert_eq!(desc, "Some text.");
}

#[test]
fn task_file_without_second_dashes_has_no_description() {
    let (yaml, desc) = split_task_file("---\nid: abc\n").unwrap();
    assert_eq!(yaml, "\nid: abc\n");
    assert_eq!(desc, "");
}

#[test]
fn task_file_without_dashes_is_refused() {
    match split_task_file("id: abc\n") {
        Err(AppError::ParseError(m)) => assert_eq!(m, "Missing YAML frontmatter"),
        other => panic!("unexpected {:?}", other),
    }
}

#[test]
fn task_file_round_trip() {
    let yaml = "id: abc\ntitle: Buy milk\ndescription: From the grocery store\nstatus: pending\n";
    let text = task_file_text(yaml);
    assert_eq!(text, "---\nid: abc\ntitle: Buy milk\ndescription: From the grocery store\nstatus: pending\n---\n");
    let (y, d) = split_task_file(&text).unwrap();
    assert_eq!(y, format!("\n{}", yaml));
    assert_eq!(d, "");
}

#[test]
fn description_comes_from_the_front_matter_first() {
    assert_eq!(task_description(Some("in front".to_string()), "after".to_string()), "in front");
    assert_eq!(task_description(Some(String::new()), "after".to_string()), "");
    assert_eq!(task_description(None, "after".to_string()), "after");
}

#[test]
fn generated_ids_are_six_base36_characters() {
    for _ in 0..20 {
        let id = generate_id();
        assert_eq!(id.chars().count(), 6);
        assert!(id.chars().all(is_id_char), "{}", id);
    }
}

#[test]
fn task_path_is_in_the_data_directory() {
    let store = FsTaskStore::new("/tmp/tasks".to_string());
    assert_eq!(store.data_dir(), "/tmp/tasks");
    assert_eq!(store.task_path("abc123"), "/tmp/tasks/abc123.md");
    let store = FsTaskStore::new("/tmp/tasks/".to_string());
    assert_eq!(store.task_path("x"), "/tmp/tasks/x.md");
    let mut store = FsTaskStore::new(String::new());
    assert_eq!(store.task_path("x"), "x.md");
    store.set_data_dir("/data".to_string());
    assert_eq!(store.task_path("y"), "/data/y.md");
}

#[test]
fn records_get_fresh_ids_and_times() {
    let store = FsTaskStore::new("/tmp/tasks".to_string());
    let t = store.new_record("Test Task", "Description here", None);
    assert_eq!(t.title, "Test Task");
    assert_eq!(t.description, "Description here");
    assert_eq!(t.status, Status::Open);
    assert_eq!(t.created_at, t.updated_at);
    assert_eq!(t.id.len(), 6);
    assert!(t.id.chars().all(is_id_char));
    let c = store.copy_record(&t);
    assert_eq!(c.title, "Test Task (copy)");
    assert_eq!(c.description, "Description here");
    assert_eq!(c.status, Status::Open);
    let e = store.edit_record(c, TaskField::Title, "Renamed").unwrap();
    assert_eq!(e.title, "Renamed");
    assert!(store.edit_record(e, TaskField::Status, "nope").is_err());
}
