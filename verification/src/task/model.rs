//! The task record and the small vocabularies around it.

use vstd::prelude::*;

use crate::text::{ascii_lower, lowered, owned, str_eq, to_lowercase};

verus! {

/// Whether a task is still to do or finished.
#[derive(Debug, Clone, Copy, PartialEq, Eq, Structural)]
pub enum Status {
    Open,
    Done,
}

/// Which tasks the list shows.
#[derive(Debug, Clone, Copy, PartialEq, Eq, Structural)]
pub enum Filter {
    All,
    Todo,
    Done,
}

/// A field of a task that can be edited.
#[derive(Debug, Clone, Copy, PartialEq, Eq, Structural)]
pub enum TaskField {
    Title,
    Description,
    DueDate,
    Status,
}

/// The status named by `s`, compared in lower case.
pub open spec fn status_named(s: Seq<char>) -> Option<Status> {
    let n = lowered(s);
    if n == "open"@ {
        Some(Status::Open)
    } else if n == "done"@ {
        Some(Status::Done)
    } else {
        None
    }
}

/// The filter named by `s`, compared in lower case; `open` is another name of `todo`.
pub open spec fn filter_named(s: Seq<char>) -> Option<Filter> {
    let n = lowered(s);
    if n == "all"@ {
        Some(Filter::All)
    } else if n == "todo"@ || n == "open"@ {
        Some(Filter::Todo)
    } else if n == "done"@ {
        Some(Filter::Done)
    } else {
        None
    }
}

/// The field named by `s`, compared in lower case, with its short names.
pub open spec fn field_named(s: Seq<char>) -> Option<TaskField> {
    let n = lowered(s);
    if n == "title"@ {
        Some(TaskField::Title)
    } else if n == "description"@ || n == "desc"@ {
        Some(TaskField::Description)
    } else if n == "due"@ || n == "due_date"@ || n == "duedate"@ {
        Some(TaskField::DueDate)
    } else if n == "status"@ {
        Some(TaskField::Status)
    } else {
        None
    }
}

/// How a status is written.
pub open spec fn status_text(s: Status) -> Seq<char> {
    match s {
        Status::Open => "open"@,
        Status::Done => "done"@,
    }
}

/// How a filter is written.
pub open spec fn filter_text(f: Filter) -> Seq<char> {
    match f {
        Filter::All => "all"@,
        Filter::Todo => "todo"@,
        Filter::Done => "done"@,
    }
}

/// Every status name reads back as its status.
pub proof fn status_names_read_back(st: Status)
    ensures
        status_named(status_text(st)) == Some(st),
{
    reveal_strlit("open");
    reveal_strlit("done");
    assert(ascii_lower("open"@) =~= "open"@);
    assert(ascii_lower("done"@) =~= "done"@);
    assert("open"@ != "done"@) by {
        assert("open"@[0] != "done"@[0]);
    }
}

/// Every filter name reads back as its filter.
pub proof fn filter_names_read_back(f: Filter)
    ensures
        filter_named(filter_text(f)) == Some(f),
{
    reveal_strlit("all");
    reveal_strlit("todo");
    reveal_strlit("open");
    reveal_strlit("done");
    assert(ascii_lower("all"@) =~= "all"@);
    assert(ascii_lower("todo"@) =~= "todo"@);
    assert(ascii_lower("done"@) =~= "done"@);
    assert("all"@ != "todo"@ && "all"@ != "open"@ && "all"@ != "done"@) by {
        assert("all"@.len() == 3 && "todo"@.len() == 4 && "open"@.len() == 4 && "done"@.len() == 4);
    }
    assert("todo"@ != "open"@ && "todo"@ != "done"@) by {
        assert("todo"@[0] == 't' && "open"@[0] == 'o' && "done"@[0] == 'd');
    }
    assert("done"@ != "open"@) by {
        assert("done"@[0] != "open"@[0]);
    }
}

impl Status {
    /// Reads a status name, in any case.
    pub fn from_str(s: &str) -> (r: Option<Status>)
        ensures
            r == status_named(s@),
    {
        let n = to_lowercase(s);
        if str_eq(n.as_str(), "open") {
            Some(Status::Open)
        } else if str_eq(n.as_str(), "done") {
            Some(Status::Done)
        } else {
            None
        }
    }

    /// The name of the status.
    pub fn to_string(&self) -> (r: String)
        ensures
            r@ == status_text(*self),
    {
        match self {
            Status::Open => owned("open"),
            Status::Done => owned("done"),
        }
    }
}

impl Filter {
    /// Reads a filter name, in any case.
    pub fn from_str(s: &str) -> (r: Option<Filter>)
        ensures
            r == filter_named(s@),
    {
        let n = to_lowercase(s);
        let n = n.as_str();
        if str_eq(n, "all") {
            Some(Filter::All)
        } else if str_eq(n, "todo") || str_eq(n, "open") {
            Some(Filter::Todo)
        } else if str_eq(n, "done") {
            Some(Filter::Done)
        } else {
            None
        }
    }

    /// The name of the filter.
    pub fn to_string(&self) -> (r: String)
        ensures
            r@ == filter_text(*self),
    {
        match self {
            Filter::All => owned("all"),
            Filter::Todo => owned("todo"),
            Filter::Done => owned("done"),
        }
    }
}

impl TaskField {
    /// Reads a field name, in any case.
    pub fn from_str(s: &str) -> (r: Option<TaskField>)
        ensures
            r == field_named(s@),
    {
        let n = to_lowercase(s);
        let n = n.as_str();
        if str_eq(n, "title") {
            Some(TaskField::Title)
        } else if str_eq(n, "description") || str_eq(n, "desc") {
            Some(TaskField::Description)
        } else if str_eq(n, "due") || str_eq(n, "due_date") || str_eq(n, "duedate") {
            Some(TaskField::DueDate)
        } else if str_eq(n, "status") {
            Some(TaskField::Status)
        } else {
            None
        }
    }
}

/// A calendar day.
#[derive(Debug, Clone, Copy, PartialEq, Eq, Structural)]
pub struct Date {
    pub year: i32,
    pub month: u32,
    pub day: u32,
}

/// An instant, as seconds since the Unix epoch and the nanoseconds within that second.
#[derive(Debug, Clone, Copy, PartialEq, Eq, Structural)]
pub struct Timestamp {
    pub secs: i64,
    pub nanos: u32,
}

/// Whether instant `a` comes strictly after instant `b`.
pub open spec fn later(a: Timestamp, b: Timestamp) -> bool {
    a.secs > b.secs || (a.secs == b.secs && a.nanos > b.nanos)
}

/// Whether instant `a` comes strictly after instant `b`.
pub fn is_later(a: Timestamp, b: Timestamp) -> (r: bool)
    ensures
        r == later(a, b),
{
    a.secs > b.secs || (a.secs == b.secs && a.nanos > b.nanos)
}

/// A task: what the store keeps in one file.
#[derive(Debug, Clone)]
pub struct Task {
    pub id: String,
    pub title: String,
    pub description: String,
    pub status: Status,
    pub created_at: Timestamp,
    pub updated_at: Timestamp,
    pub due_date: Option<Date>,
}

/// A task with its text taken as character sequences.
pub struct TaskView {
    pub id: Seq<char>,
    pub title: Seq<char>,
    pub description: Seq<char>,
    pub status: Status,
    pub created_at: Timestamp,
    pub updated_at: Timestamp,
    pub due_date: Option<Date>,
}

impl View for Task {
    type V = TaskView;

    open spec fn view(&self) -> TaskView {
        TaskView {
            id: self.id@,
            title: self.title@,
            description: self.description@,
            status: self.status,
            created_at: self.created_at,
            updated_at: self.updated_at,
            due_date: self.due_date,
        }
    }
}

} // verus!
