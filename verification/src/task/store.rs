//! The rules of the task store: new, edited and copied tasks, the order and
//! filtering of the list, and the layout of a task file.

use vstd::prelude::*;

use chrono::Datelike;
use rand::Rng;

use crate::errors::{AppError, AppErrorView};
use crate::task::model::{
    is_later, later, status_named, Date, Filter, Status, Task, TaskField, TaskView, Timestamp,
};
use crate::paths::{join_path, path_join};
use crate::text::{append_str, chars_of, owned, push_char, string_from, trim, trim_bounds};

verus! {

/// What `NaiveDate::parse_from_str(s, "%Y-%m-%d")` gives for the text `s`:
/// year, month and day, or the text of chrono's error.
pub uninterp spec fn date_parse(s: Seq<char>) -> Result<(i32, u32, u32), Seq<char>>;

/// Calls `chrono::NaiveDate::parse_from_str` with the format `%Y-%m-%d`. Its result is
/// named by `date_parse`; chrono documents that a date's month lies in 1..=12 and its day
/// in 1..=31. On failure the text is chrono's `ParseError` as displayed.
#[verifier::external_body]
pub(crate) fn parse_date(s: &str) -> (r: Result<Date, String>)
    ensures
        match r {
            Ok(d) => date_parse(s@) == Ok::<(i32, u32, u32), Seq<char>>((d.year, d.month, d.day))
                && 1 <= d.month <= 12 && 1 <= d.day <= 31,
            Err(m) => date_parse(s@) == Err::<(i32, u32, u32), Seq<char>>(m@),
        },
{
    match chrono::NaiveDate::parse_from_str(s, "%Y-%m-%d") {
        Ok(d) => Ok(Date { year: d.year(), month: d.month(), day: d.day() }),
        Err(e) => Err(e.to_string()),
    }
}

/// Calls `chrono::Utc::now` and returns the instant as seconds and nanoseconds. Nothing is
/// stated of the result: it is the clock's. (chrono panics when the clock reads a time
/// before 1970.)
#[verifier::external_body]
pub(crate) fn current_timestamp() -> (t: Timestamp) {
    let now = chrono::Utc::now();
    Timestamp { secs: now.timestamp(), nanos: now.timestamp_subsec_nanos() }
}

/// Calls `rand::Rng::gen_range(&mut rand::thread_rng(), 0..n)`: a random number below `n`.
/// (`thread_rng` panics when the system offers no randomness to seed it.)
#[verifier::external_body]
fn random_below(n: u32) -> (r: u32)
    requires
        n > 0,
    ensures
        r < n,
{
    rand::thread_rng().gen_range(0..n)
}

/// The character of digit `d` in base 36, as `char::from_digit(d, 36)` writes it.
pub open spec fn base36_char(d: int) -> char {
    if d < 10 {
        (48 + d) as char
    } else {
        (97 + d - 10) as char
    }
}

/// Whether `c` is a digit or a lower-case ASCII letter.
pub open spec fn is_id_char(c: char) -> bool {
    ('0' <= c <= '9') || ('a' <= c <= 'z')
}

/// The character of digit `d` in base 36.
fn digit_char(d: u32) -> (c: char)
    requires
        d < 36,
    ensures
        c == base36_char(d as int),
        is_id_char(c),
{
    if d < 10 {
        ((48 + d) as u8) as char
    } else {
        ((97 + d - 10) as u8) as char
    }
}

/// A fresh task id: six random digits and lower-case letters.
pub fn generate_id() -> (id: String)
    ensures
        id@.len() == 6,
        forall|i: int| 0 <= i < 6 ==> is_id_char(#[trigger] id@[i]),
{
    let mut id = String::new();
    let mut k: usize = 0;
    while k < 6
        invariant
            k <= 6,
            id@.len() == k,
            forall|i: int| 0 <= i < k ==> is_id_char(#[trigger] id@[i]),
        decreases 6 - k,
    {
        let d = random_below(36);
        push_char(&mut id, digit_char(d));
        k = k + 1;
    }
    id
}

/// A new open task.
pub open spec fn new_task_view(
    id: Seq<char>,
    title: Seq<char>,
    description: Seq<char>,
    due_date: Option<Date>,
    now: Timestamp,
) -> TaskView {
    TaskView {
        id,
        title,
        description,
        status: Status::Open,
        created_at: now,
        updated_at: now,
        due_date,
    }
}

/// A new open task, created and updated at `now`.
pub fn new_task(id: String, title: &str, description: &str, due_date: Option<Date>, now: Timestamp) -> (t: Task)
    ensures
        t@ == new_task_view(id@, title@, description@, due_date, now),
{
    Task {
        id,
        title: owned(title),
        description: owned(description),
        status: Status::Open,
        created_at: now,
        updated_at: now,
        due_date,
    }
}

/// The copy of task `t`: same description and due date, the title marked as a copy,
/// open again, with its own id and times.
pub open spec fn copy_view(t: TaskView, id: Seq<char>, now: Timestamp) -> TaskView {
    TaskView {
        id,
        title: t.title + " (copy)"@,
        description: t.description,
        status: Status::Open,
        created_at: now,
        updated_at: now,
        due_date: t.due_date,
    }
}

/// The copy of `task` under the id `id`, made at `now`.
pub fn cloned_task(task: &Task, id: String, now: Timestamp) -> (t: Task)
    ensures
        t@ == copy_view(task@, id@, now),
{
    let mut title = task.title.clone();
    append_str(&mut title, " (copy)");
    Task {
        id,
        title,
        description: task.description.clone(),
        status: Status::Open,
        created_at: now,
        updated_at: now,
        due_date: task.due_date,
    }
}

/// The text of the error for a due date that does not read as a date.
pub open spec fn invalid_date_text(value: Seq<char>, why: Seq<char>) -> Seq<char> {
    "Invalid date '"@ + value + "': "@ + why
}

/// The text of the error for a status that is not known.
pub open spec fn invalid_status_text(value: Seq<char>) -> Seq<char> {
    "Invalid status '"@ + value + "'. Use 'open' or 'done'"@
}

/// Task `t` with `field` set from the text `value` at `now`, or the error that stops it.
/// An empty due date clears it.
pub open spec fn update_view(t: TaskView, field: TaskField, value: Seq<char>, now: Timestamp) -> Result<
    TaskView,
    AppErrorView,
> {
    match field {
        TaskField::Title => Ok(TaskView { title: value, updated_at: now, ..t }),
        TaskField::Description => Ok(TaskView { description: value, updated_at: now, ..t }),
        TaskField::DueDate => if value.len() == 0 {
            Ok(TaskView { due_date: None, updated_at: now, ..t })
        } else {
            match date_parse(value) {
                Ok((y, m, d)) => Ok(
                    TaskView {
                        due_date: Some(Date { year: y, month: m, day: d }),
                        updated_at: now,
                        ..t
                    },
                ),
                Err(why) => Err(AppErrorView::ParseError(invalid_date_text(value, why))),
            }
        },
        TaskField::Status => match status_named(value) {
            Some(s) => Ok(TaskView { status: s, updated_at: now, ..t }),
            None => Err(AppErrorView::ParseError(invalid_status_text(value))),
        },
    }
}

/// `task` with `field` set from the text `value`, updated at `now`.
pub fn updated_task(task: Task, field: TaskField, value: &str, now: Timestamp) -> (r: Result<Task, AppError>)
    ensures
        match r {
            Ok(t) => update_view(task@, field, value@, now) == Ok::<TaskView, AppErrorView>(t@),
            Err(e) => update_view(task@, field, value@, now) == Err::<TaskView, AppErrorView>(e@),
        },
{
    let mut task = task;
    match field {
        TaskField::Title => {
            task.title = owned(value);
        },
        TaskField::Description => {
            task.description = owned(value);
        },
        TaskField::DueDate => {
            if value.is_empty() {
                task.due_date = None;
            } else {
                match parse_date(value) {
                    Ok(d) => {
                        task.due_date = Some(d);
                    },
                    Err(why) => {
                        let mut m = owned("Invalid date '");
                        append_str(&mut m, value);
                        append_str(&mut m, "': ");
                        append_str(&mut m, why.as_str());
                        return Err(AppError::ParseError(m));
                    },
                }
            }
        },
        TaskField::Status => {
            match Status::from_str(value) {
                Some(s) => {
                    task.status = s;
                },
                None => {
                    let mut m = owned("Invalid status '");
                    append_str(&mut m, value);
                    append_str(&mut m, "'. Use 'open' or 'done'");
                    return Err(AppError::ParseError(m));
                },
            }
        },
    }
    task.updated_at = now;
    Ok(task)
}

/// Where a task with instant `t` goes in `s`, a list already newest first: after every
/// task that is at least as new, so that tasks of the same instant keep their order.
pub open spec fn insert_at(s: Seq<Task>, t: Timestamp, i: int) -> int
    decreases s.len() - i,
{
    if 0 <= i < s.len() && !later(t, s[i].created_at) {
        insert_at(s, t, i + 1)
    } else {
        i
    }
}

/// `s` ordered newest first by creation instant; tasks created at the same instant
/// keep their order (a stable sort).
pub open spec fn newest_first(s: Seq<Task>) -> Seq<Task>
    decreases s.len(),
{
    if s.len() == 0 {
        s
    } else {
        let r = newest_first(s.drop_last());
        r.insert(insert_at(r, s.last().created_at, 0), s.last())
    }
}

/// Whether the list shows task `t` under `filter`.
pub open spec fn shown(filter: Filter, t: Task) -> bool {
    match filter {
        Filter::All => true,
        Filter::Todo => t.status == Status::Open,
        Filter::Done => t.status == Status::Done,
    }
}

/// The tasks of `s` that `filter` shows, in order.
pub open spec fn shown_tasks(s: Seq<Task>, filter: Filter) -> Seq<Task>
    decreases s.len(),
{
    if s.len() == 0 {
        s
    } else {
        let r = shown_tasks(s.drop_last(), filter);
        if shown(filter, s.last()) {
            r.push(s.last())
        } else {
            r
        }
    }
}

pub proof fn lemma_insert_at_bounds(s: Seq<Task>, t: Timestamp, i: int)
    requires
        0 <= i <= s.len(),
    ensures
        i <= insert_at(s, t, i) <= s.len(),
        forall|k: int| i <= k < insert_at(s, t, i) ==> !later(t, #[trigger] s[k].created_at),
        insert_at(s, t, i) < s.len() ==> later(t, s[insert_at(s, t, i)].created_at),
    decreases s.len() - i,
{
    if i < s.len() && !later(t, s[i].created_at) {
        lemma_insert_at_bounds(s, t, i + 1);
    }
}

/// Whether a task is shown under a filter.
fn is_shown(filter: Filter, t: &Task) -> (r: bool)
    ensures
        r == shown(filter, *t),
{
    match filter {
        Filter::All => true,
        Filter::Todo => t.status == Status::Open,
        Filter::Done => t.status == Status::Done,
    }
}

/// The tasks of the list: newest first, then those that `filter` shows.
pub fn select_tasks(tasks: Vec<Task>, filter: Filter) -> (r: Vec<Task>)
    ensures
        r@ == shown_tasks(newest_first(tasks@), filter),
{
    let ghost input = tasks@;
    let total = tasks.len();
    let mut rest = tasks;
    let mut sorted: Vec<Task> = Vec::new();
    let mut k: usize = 0;
    while rest.len() > 0
        invariant
            k <= input.len() == total,
            rest@ == input.subrange(k as int, input.len() as int),
            sorted@ == newest_first(input.subrange(0, k as int)),
        decreases rest@.len(),
    {
        let t = rest.remove(0);
        let n = sorted.len();
        let mut p: usize = 0;
        while p < n && !is_later(t.created_at, sorted[p].created_at)
            invariant
                p <= n == sorted@.len(),
                insert_at(sorted@, t.created_at, 0) == insert_at(sorted@, t.created_at, p as int),
            decreases n - p,
        {
            p = p + 1;
        }
        proof {
            assert(input.subrange(0, k + 1).drop_last() =~= input.subrange(0, k as int));
            assert(input.subrange(0, k + 1).last() == t);
        }
        sorted.insert(p, t);
        k = k + 1;
        proof {
            assert(rest@ =~= input.subrange(k as int, input.len() as int));
        }
    }
    proof {
        assert(input.subrange(0, k as int) =~= input);
    }
    let ghost all = sorted@;
    let count = sorted.len();
    let mut shown_list: Vec<Task> = Vec::new();
    let mut remaining = sorted;
    let mut j: usize = 0;
    while remaining.len() > 0
        invariant
            j <= all.len() == count,
            remaining@ == all.subrange(j as int, all.len() as int),
            shown_list@ == shown_tasks(all.subrange(0, j as int), filter),
        decreases remaining@.len(),
    {
        let t = remaining.remove(0);
        proof {
            assert(all.subrange(0, j + 1).drop_last() =~= all.subrange(0, j as int));
            assert(all.subrange(0, j + 1).last() == t);
        }
        if is_shown(filter, &t) {
            shown_list.push(t);
        }
        j = j + 1;
        proof {
            assert(remaining@ =~= all.subrange(j as int, all.len() as int));
        }
    }
    proof {
        assert(all.subrange(0, j as int) =~= all);
    }
    shown_list
}

/// Ordering the list keeps every task, as often as it was there.
pub proof fn newest_first_keeps_tasks(s: Seq<Task>)
    ensures
        newest_first(s).to_multiset() == s.to_multiset(),
        newest_first(s).len() == s.len(),
    decreases s.len(),
{
    broadcast use vstd::seq_lib::to_multiset_build, vstd::seq_lib::to_multiset_insert;

    if s.len() > 0 {
        let r = newest_first(s.drop_last());
        newest_first_keeps_tasks(s.drop_last());
        lemma_insert_at_bounds(r, s.last().created_at, 0);
        assert(s =~= s.drop_last().push(s.last()));
    }
}

/// The ordered list is newest first: no task comes after one created later.
pub proof fn newest_first_is_ordered(s: Seq<Task>)
    ensures
        forall|i: int, j: int|
            0 <= i < j < newest_first(s).len() ==> !later(
                #[trigger] newest_first(s)[j].created_at,
                #[trigger] newest_first(s)[i].created_at,
            ),
    decreases s.len(),
{
    if s.len() > 0 {
        let r = newest_first(s.drop_last());
        let t = s.last();
        newest_first_is_ordered(s.drop_last());
        newest_first_keeps_tasks(s.drop_last());
        lemma_insert_at_bounds(r, t.created_at, 0);
        let p = insert_at(r, t.created_at, 0);
        let q = r.insert(p, t);
        assert(q == newest_first(s));
        r.insert_ensures(p, t);
        assert forall|i: int, j: int| 0 <= i < j < q.len() implies !later(
            #[trigger] q[j].created_at,
            #[trigger] q[i].created_at,
        ) by {
            if j < p {
                assert(q[i] == r[i] && q[j] == r[j]);
            } else if j == p {
                assert(q[i] == r[i]);
            } else if i < p {
                assert(q[i] == r[i] && q[j] == r[j - 1]);
            } else if i == p {
                assert(q[j] == r[j - 1]);
                assert(later(t.created_at, r[p].created_at));
                if p < j - 1 {
                    assert(!later(r[j - 1].created_at, r[p].created_at));
                }
            } else {
                assert(q[i] == r[i - 1] && q[j] == r[j - 1]);
            }
        }
    }
}

/// Under `All` the list shows every task; the tasks shown under `Todo` and those
/// shown under `Done` are as many as all of them; each shown task passes the filter.
pub proof fn filters_partition(s: Seq<Task>, f: Filter)
    ensures
        shown_tasks(s, Filter::All) == s,
        shown_tasks(s, Filter::Todo).len() + shown_tasks(s, Filter::Done).len() == s.len(),
        forall|i: int| 0 <= i < shown_tasks(s, f).len() ==> shown(f, #[trigger] shown_tasks(s, f)[i]),
    decreases s.len(),
{
    if s.len() > 0 {
        filters_partition(s.drop_last(), f);
        assert(s.drop_last().push(s.last()) =~= s);
    }
}

/// The tasks shown under a filter are the tasks of the list that pass it, in order.
proof fn lemma_shown_is_filter(s: Seq<Task>, f: Filter)
    ensures
        shown_tasks(s, f) == s.filter(|t: Task| shown(f, t)),
    decreases s.len(),
{
    let p = |t: Task| shown(f, t);
    if s.len() > 0 {
        lemma_shown_is_filter(s.drop_last(), f);
        reveal_with_fuel(Seq::filter, 1);
        assert(s.filter(p) == (if p(s.last()) {
            s.drop_last().filter(p).push(s.last())
        } else {
            s.drop_last().filter(p)
        }));
    } else {
        reveal_with_fuel(Seq::filter, 1);
        assert(s.filter(p) == s);
    }
}

/// The list under `All` is the whole list, and the lists under `Todo` and `Done` are the
/// whole list restricted to the open and to the finished tasks, in the same order.
pub proof fn filters_restrict_the_list(s: Seq<Task>)
    ensures
        shown_tasks(s, Filter::All) == s,
        shown_tasks(s, Filter::Todo) == s.filter(|t: Task| t.status == Status::Open),
        shown_tasks(s, Filter::Done) == s.filter(|t: Task| t.status == Status::Done),
{
    filters_partition(s, Filter::All);
    lemma_shown_is_filter(s, Filter::Todo);
    lemma_shown_is_filter(s, Filter::Done);
    assert((|t: Task| shown(Filter::Todo, t)) =~= (|t: Task| t.status == Status::Open));
    assert((|t: Task| shown(Filter::Done, t)) =~= (|t: Task| t.status == Status::Done));
}

/// Whether three dashes start at index `i` of `s`.
pub open spec fn dashes_at(s: Seq<char>, i: int) -> bool {
    0 <= i && i + 3 <= s.len() && s[i] == '-' && s[i + 1] == '-' && s[i + 2] == '-'
}

/// The first index at or after `i` where three dashes start, if any.
pub open spec fn find_dashes(s: Seq<char>, i: int) -> Option<int>
    decreases s.len() - i,
{
    if 0 <= i && i + 3 <= s.len() {
        if dashes_at(s, i) {
            Some(i)
        } else {
            find_dashes(s, i + 1)
        }
    } else {
        None
    }
}

pub proof fn lemma_find_dashes(s: Seq<char>, i: int)
    requires
        0 <= i,
    ensures
        find_dashes(s, i) matches Some(j) ==> i <= j && dashes_at(s, j),
        find_dashes(s, i) matches Some(j) ==> forall|k: int| i <= k < j ==> !#[trigger] dashes_at(s, k),
        find_dashes(s, i) is None ==> forall|k: int| i <= k ==> !#[trigger] dashes_at(s, k),
    decreases s.len() - i,
{
    if i + 3 <= s.len() && !dashes_at(s, i) {
        lemma_find_dashes(s, i + 1);
    }
}

/// The two parts of a task file: the front matter between the first two lines of
/// dashes, and the text after them, trimmed.
pub open spec fn file_parts(content: Seq<char>) -> Result<(Seq<char>, Seq<char>), AppErrorView> {
    match find_dashes(content, 0) {
        None => Err(AppErrorView::ParseError("Missing YAML frontmatter"@)),
        Some(a) => match find_dashes(content, a + 3) {
            None => Ok((content.subrange(a + 3, content.len() as int), Seq::<char>::empty())),
            Some(b) => Ok(
                (content.subrange(a + 3, b), trim(content.subrange(b + 3, content.len() as int))),
            ),
        },
    }
}

/// A front matter `yaml` between two lines of dashes, and the text `body` after them.
pub open spec fn framed(yaml: Seq<char>, body: Seq<char>) -> Seq<char> {
    "---\n"@ + yaml + "---\n"@ + body
}

/// The text of a task file: its front matter (which holds every field of the task,
/// the description among them) between two lines of dashes, and nothing after them.
pub open spec fn file_text(yaml: Seq<char>) -> Seq<char> {
    framed(yaml, Seq::<char>::empty())
}

/// A task's description: the one its front matter gives, else the text after the front
/// matter (where files of an earlier layout keep it).
pub open spec fn description_of(front: Option<Seq<char>>, body: Seq<char>) -> Seq<char> {
    match front {
        Some(d) => d,
        None => body,
    }
}

/// The first index at or after `i` where three dashes start in `v`, or `v.len()`.
fn dashes_from(v: &Vec<char>, i: usize) -> (r: usize)
    requires
        i <= v@.len(),
    ensures
        i <= r <= v@.len(),
        find_dashes(v@, i as int) == (if r < v@.len() {
            Some(r as int)
        } else {
            None::<int>
        }),
{
    let n = v.len();
    let mut k = i;
    while n - k >= 3 && !(v[k] == '-' && v[k + 1] == '-' && v[k + 2] == '-')
        invariant
            i <= k <= n == v@.len(),
            find_dashes(v@, i as int) == find_dashes(v@, k as int),
        decreases n - k,
    {
        k = k + 1;
    }
    if n - k >= 3 {
        k
    } else {
        n
    }
}

/// Splits the text of a task file into its front matter and its trimmed description.
pub fn split_task_file(content: &str) -> (r: Result<(String, String), AppError>)
    ensures
        match r {
            Ok(p) => file_parts(content@) == Ok::<(Seq<char>, Seq<char>), AppErrorView>((p.0@, p.1@)),
            Err(e) => file_parts(content@) == Err::<(Seq<char>, Seq<char>), AppErrorView>(e@),
        },
{
    let v = chars_of(content);
    let n = v.len();
    let a = dashes_from(&v, 0);
    if a == n {
        return Err(AppError::ParseError(owned("Missing YAML frontmatter")));
    }
    proof {
        lemma_find_dashes(v@, 0);
    }
    let b = dashes_from(&v, a + 3);
    if b == n {
        return Ok((string_from(&v, a + 3, n), String::new()));
    }
    proof {
        lemma_find_dashes(v@, a + 3);
    }
    let yaml = string_from(&v, a + 3, b);
    let rest = string_from(&v, b + 3, n);
    let w = chars_of(rest.as_str());
    let (lo, hi) = trim_bounds(&w);
    Ok((yaml, string_from(&w, lo, hi)))
}

/// The text of a task file with front matter `yaml`.
pub fn task_file_text(yaml: &str) -> (r: String)
    ensures
        r@ == file_text(yaml@),
{
    let mut r = owned("---\n");
    append_str(&mut r, yaml);
    append_str(&mut r, "---\n");
    proof {
        assert(r@ =~= file_text(yaml@));
    }
    r
}

/// The description of a task read from a file: the front matter's, else the text after it.
pub fn task_description(front: Option<String>, body: String) -> (r: String)
    ensures
        r@ == description_of(crate::commands::opt_view(front), body@),
{
    match front {
        Some(d) => d,
        None => body,
    }
}

/// A task file's front matter reads back as written, after the line break that follows
/// the first dashes, and nothing follows it, provided the front matter holds no three
/// dashes and ends with a line break (as YAML writers end it).
pub proof fn task_file_round_trip(yaml: Seq<char>)
    requires
        forall|k: int| !#[trigger] dashes_at(yaml, k),
        yaml.len() > 0 ==> yaml.last() == '\n',
    ensures
        file_parts(file_text(yaml)) == Ok::<(Seq<char>, Seq<char>), AppErrorView>(
            (seq!['\n'] + yaml, Seq::<char>::empty()),
        ),
{
    lemma_framed_parts(yaml, Seq::<char>::empty());
    assert(trim(Seq::<char>::empty()) =~= Seq::<char>::empty());
}

/// The front matter and the trimmed text after it read back from a framed text.
proof fn lemma_framed_parts(yaml: Seq<char>, description: Seq<char>)
    requires
        forall|k: int| !#[trigger] dashes_at(yaml, k),
        yaml.len() > 0 ==> yaml.last() == '\n',
    ensures
        file_parts(framed(yaml, description)) == Ok::<(Seq<char>, Seq<char>), AppErrorView>(
            (seq!['\n'] + yaml, trim(description)),
        ),
{
    let t = framed(yaml, description);
    reveal_strlit("---\n");
    let m = yaml.len() as int;
    assert(dashes_at(t, 0));
    assert(find_dashes(t, 0) == Some(0int));
    assert forall|k: int| 3 <= k < m + 4 implies !#[trigger] dashes_at(t, k) by {
        if dashes_at(t, k) {
            if k + 2 < m + 4 {
                assert(t[k] == yaml[k - 4] || k == 3);
                if k == 3 {
                    assert(t[3] == '\n');
                } else {
                    assert(t[k] == yaml[k - 4] && t[k + 1] == yaml[k - 3] && t[k + 2] == yaml[k - 2]);
                    assert(dashes_at(yaml, k - 4));
                }
            } else {
                if m == 0 {
                    assert(t[3] == '\n');
                } else {
                    assert(t[m + 3] == yaml[m - 1]);
                }
            }
        }
    }
    assert(dashes_at(t, m + 4));
    lemma_find_dashes_first(t, 3, m + 4);
    assert(t.subrange(3, m + 4) =~= seq!['\n'] + yaml);
    assert(t.subrange(m + 7, t.len() as int) =~= seq!['\n'] + description);
    lemma_trim_leading_ws(description, '\n');
}

/// Searching from `i` finds the first dashes at `j` when there are none before it.
proof fn lemma_find_dashes_first(s: Seq<char>, i: int, j: int)
    requires
        0 <= i <= j,
        dashes_at(s, j),
        forall|k: int| i <= k < j ==> !#[trigger] dashes_at(s, k),
    ensures
        find_dashes(s, i) == Some(j),
    decreases j - i,
{
    if i < j {
        lemma_find_dashes_first(s, i + 1, j);
    }
}

/// Trimming text with one more white-space character in front changes nothing.
proof fn lemma_trim_leading_ws(s: Seq<char>, c: char)
    requires
        crate::text::is_ws(c),
    ensures
        trim(seq![c] + s) == trim(s),
{
    let t = seq![c] + s;
    lemma_skip_ws_shift(t, 1);
    assert(t.subrange(1, t.len() as int) =~= s);
    crate::text::lemma_skip_ws_bounds(s, 0);
    assert(t.subrange(crate::text::skip_ws(t, 0), t.len() as int) =~= s.subrange(
        crate::text::skip_ws(s, 0),
        s.len() as int,
    ));
}

/// Skipping white space from `d` on in `s` is skipping it in `s` without its first `d` characters.
proof fn lemma_skip_ws_shift(s: Seq<char>, d: int)
    requires
        0 <= d <= s.len(),
        forall|k: int| 0 <= k < d ==> crate::text::is_ws(#[trigger] s[k]),
    ensures
        crate::text::skip_ws(s, 0) == crate::text::skip_ws(s.subrange(d, s.len() as int), 0) + d,
{
    lemma_skip_ws_from(s, 0, d);
    lemma_skip_ws_suffix(s, d, d);
}

proof fn lemma_skip_ws_from(s: Seq<char>, i: int, d: int)
    requires
        0 <= i <= d <= s.len(),
        forall|k: int| 0 <= k < d ==> crate::text::is_ws(#[trigger] s[k]),
    ensures
        crate::text::skip_ws(s, i) == crate::text::skip_ws(s, d),
    decreases d - i,
{
    if i < d {
        lemma_skip_ws_from(s, i + 1, d);
    }
}

proof fn lemma_skip_ws_suffix(s: Seq<char>, d: int, i: int)
    requires
        0 <= d <= i <= s.len(),
    ensures
        crate::text::skip_ws(s, i) == crate::text::skip_ws(s.subrange(d, s.len() as int), i - d) + d,
    decreases s.len() - i,
{
    if i < s.len() && crate::text::is_ws(s[i]) {
        lemma_skip_ws_suffix(s, d, i + 1);
    }
}

/// The store of tasks: one Markdown file per task in a data directory.
pub struct FsTaskStore {
    data_dir: String,
}

impl FsTaskStore {
    /// The store over the data directory `data_dir` (creating the directory is the caller's part).
    pub fn new(data_dir: String) -> (s: Self)
        ensures
            s.dir() == data_dir@,
    {
        FsTaskStore { data_dir }
    }

    /// The data directory.
    pub closed spec fn dir(&self) -> Seq<char> {
        self.data_dir@
    }

    /// The data directory.
    pub fn data_dir(&self) -> (r: &String)
        ensures
            r@ == self.dir(),
    {
        &self.data_dir
    }

    /// Moves the store to another data directory (moving the files is the caller's part).
    pub fn set_data_dir(&mut self, data_dir: String)
        ensures
            final(self).dir() == data_dir@,
    {
        self.data_dir = data_dir;
    }

    /// The path of the file of task `id`: `<id>.md` in the data directory.
    pub fn task_path(&self, id: &str) -> (r: String)
        ensures
            r@ == path_join(self.dir(), id@ + ".md"@),
    {
        let mut name = owned(id);
        append_str(&mut name, ".md");
        join_path(self.data_dir.as_str(), name.as_str())
    }

    /// A new open task: a fresh id, the clock's instant as its creation and update time.
    pub fn new_record(&self, title: &str, description: &str, due_date: Option<Date>) -> (t: Task)
        ensures
            t@.title == title@,
            t@.description == description@,
            t@.status == Status::Open,
            t@.due_date == due_date,
            t@.created_at == t@.updated_at,
            t@.id.len() == 6,
            forall|i: int| 0 <= i < 6 ==> is_id_char(#[trigger] t@.id[i]),
    {
        let id = generate_id();
        let now = current_timestamp();
        new_task(id, title, description, due_date, now)
    }

    /// Task `task` with `field` set from `value`, updated at the clock's instant.
    pub fn edit_record(&self, task: Task, field: TaskField, value: &str) -> (r: Result<Task, AppError>)
        ensures
            match r {
                Ok(t) => exists|now: Timestamp|
                    update_view(task@, field, value@, now) == Ok::<TaskView, AppErrorView>(t@),
                Err(e) => exists|now: Timestamp|
                    update_view(task@, field, value@, now) == Err::<TaskView, AppErrorView>(e@),
            },
    {
        let now = current_timestamp();
        updated_task(task, field, value, now)
    }

    /// The copy of `task` under a fresh id, made at the clock's instant.
    pub fn copy_record(&self, task: &Task) -> (t: Task)
        ensures
            t@.title == task@.title + " (copy)"@,
            t@.description == task@.description,
            t@.status == Status::Open,
            t@.due_date == task@.due_date,
            t@.created_at == t@.updated_at,
            t@.id.len() == 6,
            forall|i: int| 0 <= i < 6 ==> is_id_char(#[trigger] t@.id[i]),
    {
        let id = generate_id();
        let now = current_timestamp();
        cloned_task(task, id, now)
    }
}

} // verus!
