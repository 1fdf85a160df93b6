use easytodo::task::model::{is_later, Filter, Status, TaskField, Timestamp};

#[test]
fn status_names_read_in_any_case() {
    assert_eq!(Status::from_str("open"), Some(Status::Open));
    assert_eq!(Status::from_str("OPEN"), Some(Status::Open));
    assert_eq!(Status::from_str("Done"), Some(Status::Done));
    assert_eq!(Status::from_str("closed"), None);
    assert_eq!(Status::from_str(""), None);
}

#[test]
fn status_names_written() {
    assert_eq!(Status::Open.to_string(), "open");
    assert_eq!(Status::Done.to_string(), "done");
}

#[test]
fn filter_names_read_with_open_as_todo() {
    assert_eq!(Filter::from_str("all"), Some(Filter::All));
    assert_eq!(Filter::from_str("TODO"), Some(Filter::Todo));
    assert_eq!(Filter::from_str("open"), Some(Filter::Todo));
    assert_eq!(Filter::from_str("Done"), Some(Filter::Done));
    assert_eq!(Filter::from_str("everything"), None);
}

#[test]
fn filter_names_written() {
    assert_eq!(Filter::All.to_string(), "all");
    assert_eq!(Filter::Todo.to_string(), "todo");
    assert_eq!(Filter::Done.to_string(), "done");
}

#[test]
fn field_names_read_with_short_forms() {
    assert_eq!(TaskField::from_str("title"), Some(TaskField::Title));
    assert_eq!(TaskField::from_str("Title"), Some(TaskField::Title));
    assert_eq!(TaskField::from_str("description"), Some(TaskField::Description));
    assert_eq!(TaskField::from_str("desc"), Some(TaskField::Description));
    assert_eq!(TaskField::from_str("due"), Some(TaskField::DueDate));
    assert_eq!(TaskField::from_str("due_date"), Some(TaskField::DueDate));
    assert_eq!(TaskField::from_str("DueDate"), Some(TaskField::DueDate));
    assert_eq!(TaskField::from_str("STATUS"), Some(TaskField::Status));
    assert_eq!(TaskField::from_str("priority"), None);
}

#[test]
fn later_compares_seconds_then_nanoseconds() {
    let a = Timestamp { secs: 10, nanos: 5 };
    let b = Timestamp { secs: 10, nanos: 4 };
    let c = Timestamp { secs: 9, nanos: 999 };
    assert!(is_later(a, b));
    assert!(!is_later(b, a));
    assert!(is_later(b, c));
    assert!(!is_later(a, a));
}

#[test]
fn names_read_back() {
    for st in [Status::Open, Status::Done] {
        assert_eq!(Status::from_str(&st.to_string()), Some(st));
    }
    for f in [Filter::All, Filter::Todo, Filter::Done] {
        assert_eq!(Filter::from_str(&f.to_string()), Some(f));
    }
}
