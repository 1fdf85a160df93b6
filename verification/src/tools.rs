//! The decisions of the tool server: which store operation a tool call asks for, and
//! what it answers.

use vstd::prelude::*;

use crate::commands::opt_view;
use crate::task::model::{filter_named, Date, Filter, TaskField};
use crate::task::store::{date_parse, parse_date};
use crate::text::{append_str, owned, str_eq};

verus! {

/// The string arguments of a tool call that the tools read (absent or not a string: `None`).
#[derive(Debug, Clone)]
pub struct ToolArgs {
    pub filter: Option<String>,
    pub id: Option<String>,
    pub title: Option<String>,
    pub description: Option<String>,
    pub due_date: Option<String>,
    pub status: Option<String>,
    pub key: Option<String>,
    pub value: Option<String>,
}

/// What a tool call asks of the store or of the settings.
#[derive(Debug)]
pub enum ToolPlan {
    List(Filter),
    Get(String),
    Create { title: String, description: String, due: Option<Date> },
    Update { id: String, changes: Vec<(TaskField, String)> },
    Delete(String),
    MarkDone(String),
    MarkOpen(String),
    Help,
    GetConfig(String),
    SetConfig { key: String, value: String },
}

/// A plan with its text as characters.
pub enum ToolPlanView {
    List(Filter),
    Get(Seq<char>),
    Create { title: Seq<char>, description: Seq<char>, due: Option<Date> },
    Update { id: Seq<char>, changes: Seq<(TaskField, Seq<char>)> },
    Delete(Seq<char>),
    MarkDone(Seq<char>),
    MarkOpen(Seq<char>),
    Help,
    GetConfig(Seq<char>),
    SetConfig { key: Seq<char>, value: Seq<char> },
}

impl View for ToolPlan {
    type V = ToolPlanView;

    open spec fn view(&self) -> ToolPlanView {
        match self {
            ToolPlan::List(f) => ToolPlanView::List(*f),
            ToolPlan::Get(id) => ToolPlanView::Get(id@),
            ToolPlan::Create { title, description, due } => ToolPlanView::Create {
                title: title@,
                description: description@,
                due: *due,
            },
            ToolPlan::Update { id, changes } => ToolPlanView::Update {
                id: id@,
                changes: changes@.map_values(|c: (TaskField, String)| (c.0, c.1@)),
            },
            ToolPlan::Delete(id) => ToolPlanView::Delete(id@),
            ToolPlan::MarkDone(id) => ToolPlanView::MarkDone(id@),
            ToolPlan::MarkOpen(id) => ToolPlanView::MarkOpen(id@),
            ToolPlan::Help => ToolPlanView::Help,
            ToolPlan::GetConfig(k) => ToolPlanView::GetConfig(k@),
            ToolPlan::SetConfig { key, value } => ToolPlanView::SetConfig { key: key@, value: value@ },
        }
    }
}

/// The arguments as character sequences.
pub struct ToolArgsView {
    pub filter: Option<Seq<char>>,
    pub id: Option<Seq<char>>,
    pub title: Option<Seq<char>>,
    pub description: Option<Seq<char>>,
    pub due_date: Option<Seq<char>>,
    pub status: Option<Seq<char>>,
    pub key: Option<Seq<char>>,
    pub value: Option<Seq<char>>,
}

impl View for ToolArgs {
    type V = ToolArgsView;

    open spec fn view(&self) -> ToolArgsView {
        ToolArgsView {
            filter: opt_view(self.filter),
            id: opt_view(self.id),
            title: opt_view(self.title),
            description: opt_view(self.description),
            due_date: opt_view(self.due_date),
            status: opt_view(self.status),
            key: opt_view(self.key),
            value: opt_view(self.value),
        }
    }
}

/// The names of the tools, spelled out.
pub proof fn lemma_tool_names()
    ensures
        "list_tasks"@ == seq!['l', 'i', 's', 't', '_', 't', 'a', 's', 'k', 's'],
        "get_task"@ == seq!['g', 'e', 't', '_', 't', 'a', 's', 'k'],
        "create_task"@ == seq!['c', 'r', 'e', 'a', 't', 'e', '_', 't', 'a', 's', 'k'],
        "update_task"@ == seq!['u', 'p', 'd', 'a', 't', 'e', '_', 't', 'a', 's', 'k'],
        "delete_task"@ == seq!['d', 'e', 'l', 'e', 't', 'e', '_', 't', 'a', 's', 'k'],
        "done_task"@ == seq!['d', 'o', 'n', 'e', '_', 't', 'a', 's', 'k'],
        "undone_task"@ == seq!['u', 'n', 'd', 'o', 'n', 'e', '_', 't', 'a', 's', 'k'],
        "help"@ == seq!['h', 'e', 'l', 'p'],
        "get_config"@ == seq!['g', 'e', 't', '_', 'c', 'o', 'n', 'f', 'i', 'g'],
        "set_config"@ == seq!['s', 'e', 't', '_', 'c', 'o', 'n', 'f', 'i', 'g'],
{
    reveal_strlit("list_tasks");
    reveal_strlit("get_task");
    reveal_strlit("create_task");
    reveal_strlit("update_task");
    reveal_strlit("delete_task");
    reveal_strlit("done_task");
    reveal_strlit("undone_task");
    reveal_strlit("help");
    reveal_strlit("get_config");
    reveal_strlit("set_config");
}

/// The names of the tools, in the order the server lists them.
pub open spec fn tool_names_spec() -> Seq<Seq<char>> {
    seq![
        "list_tasks"@,
        "get_task"@,
        "create_task"@,
        "update_task"@,
        "delete_task"@,
        "done_task"@,
        "undone_task"@,
        "help"@,
        "get_config"@,
        "set_config"@,
    ]
}

/// The names of the tools, in the order the server lists them.
pub fn tool_names() -> (r: Vec<String>)
    ensures
        r@.map_values(|t: String| t@) == tool_names_spec(),
{
    let mut r: Vec<String> = Vec::new();
    r.push(owned("list_tasks"));
    r.push(owned("get_task"));
    r.push(owned("create_task"));
    r.push(owned("update_task"));
    r.push(owned("delete_task"));
    r.push(owned("done_task"));
    r.push(owned("undone_task"));
    r.push(owned("help"));
    r.push(owned("get_config"));
    r.push(owned("set_config"));
    assert(r@.map_values(|t: String| t@) =~= tool_names_spec());
    r
}

/// The field changes an `update_task` call asks for, in the order title, description,
/// due date, status, each where its argument is given.
pub open spec fn update_changes(a: ToolArgsView) -> Seq<(TaskField, Seq<char>)> {
    let c0 = Seq::<(TaskField, Seq<char>)>::empty();
    let c1 = match a.title {
        Some(t) => c0.push((TaskField::Title, t)),
        None => c0,
    };
    let c2 = match a.description {
        Some(d) => c1.push((TaskField::Description, d)),
        None => c1,
    };
    let c3 = match a.due_date {
        Some(d) => c2.push((TaskField::DueDate, d)),
        None => c2,
    };
    match a.status {
        Some(s) => c3.push((TaskField::Status, s)),
        None => c3,
    }
}

/// The due date a `create_task` call asks for: none for an absent or empty argument or
/// one that does not read as a date.
pub open spec fn requested_due(d: Option<Seq<char>>) -> Option<Date> {
    match d {
        Some(s) => if s.len() > 0 {
            match date_parse(s) {
                Ok((y, m, dd)) => Some(Date { year: y, month: m, day: dd }),
                Err(_) => None,
            }
        } else {
            None
        },
        None => None,
    }
}

/// The plan of the tool `name` called with `a`, or the error it answers.
pub open spec fn tool_plan(name: Seq<char>, a: ToolArgsView) -> Result<ToolPlanView, Seq<char>> {
    let missing_id = "Missing 'id' argument"@;
    if name == "list_tasks"@ {
        Ok(
            ToolPlanView::List(
                match a.filter {
                    Some(f) => match filter_named(f) {
                        Some(fl) => fl,
                        None => Filter::All,
                    },
                    None => Filter::All,
                },
            ),
        )
    } else if name == "get_task"@ {
        match a.id {
            Some(id) => Ok(ToolPlanView::Get(id)),
            None => Err(missing_id),
        }
    } else if name == "create_task"@ {
        match a.title {
            Some(t) => Ok(
                ToolPlanView::Create {
                    title: t,
                    description: match a.description {
                        Some(d) => d,
                        None => Seq::<char>::empty(),
                    },
                    due: requested_due(a.due_date),
                },
            ),
            None => Err("Missing 'title' argument"@),
        }
    } else if name == "update_task"@ {
        match a.id {
            Some(id) => Ok(ToolPlanView::Update { id, changes: update_changes(a) }),
            None => Err(missing_id),
        }
    } else if name == "delete_task"@ {
        match a.id {
            Some(id) => Ok(ToolPlanView::Delete(id)),
            None => Err(missing_id),
        }
    } else if name == "done_task"@ {
        match a.id {
            Some(id) => Ok(ToolPlanView::MarkDone(id)),
            None => Err(missing_id),
        }
    } else if name == "undone_task"@ {
        match a.id {
            Some(id) => Ok(ToolPlanView::MarkOpen(id)),
            None => Err(missing_id),
        }
    } else if name == "help"@ {
        Ok(ToolPlanView::Help)
    } else if name == "get_config"@ {
        match a.key {
            Some(k) => Ok(ToolPlanView::GetConfig(k)),
            None => Err("Missing 'key' argument"@),
        }
    } else if name == "set_config"@ {
        match (a.key, a.value) {
            (Some(k), Some(v)) => Ok(ToolPlanView::SetConfig { key: k, value: v }),
            (None, _) => Err("Missing 'key' argument"@),
            (Some(_), None) => Err("Missing 'value' argument"@),
        }
    } else {
        Err("Unknown tool: "@ + name)
    }
}

/// The id argument, or the error for its absence.
fn required_id(a: &ToolArgs) -> (r: Result<String, String>)
    ensures
        match r {
            Ok(id) => a@.id == Some(id@),
            Err(m) => a@.id is None && m@ == "Missing 'id' argument"@,
        },
{
    match &a.id {
        Some(id) => Ok(id.clone()),
        None => Err(owned("Missing 'id' argument")),
    }
}

/// Decides what the tool `name`, called with `args`, asks of the store.
pub fn plan_tool_call(name: &str, args: &ToolArgs) -> (r: Result<ToolPlan, String>)
    ensures
        match r {
            Ok(p) => tool_plan(name@, args@) == Ok::<ToolPlanView, Seq<char>>(p@),
            Err(m) => tool_plan(name@, args@) == Err::<ToolPlanView, Seq<char>>(m@),
        },
{
    proof {
        lemma_tool_names();
    }
    if str_eq(name, "list_tasks") {
        let filter = match &args.filter {
            Some(f) => match Filter::from_str(f.as_str()) {
                Some(fl) => fl,
                None => Filter::All,
            },
            None => Filter::All,
        };
        Ok(ToolPlan::List(filter))
    } else if str_eq(name, "get_task") {
        let id = required_id(args)?;
        Ok(ToolPlan::Get(id))
    } else if str_eq(name, "create_task") {
        match &args.title {
            Some(t) => {
                let description = match &args.description {
                    Some(d) => d.clone(),
                    None => String::new(),
                };
                let due = match &args.due_date {
                    Some(d) => {
                        if d.as_str().is_empty() {
                            None
                        } else {
                            match parse_date(d.as_str()) {
                                Ok(date) => Some(date),
                                Err(_) => None,
                            }
                        }
                    },
                    None => None,
                };
                Ok(ToolPlan::Create { title: t.clone(), description, due })
            },
            None => Err(owned("Missing 'title' argument")),
        }
    } else if str_eq(name, "update_task") {
        let id = required_id(args)?;
        let mut changes: Vec<(TaskField, String)> = Vec::new();
        let ghost view_of = |c: (TaskField, String)| (c.0, c.1@);
        if let Some(t) = &args.title {
            changes.push((TaskField::Title, t.clone()));
        }
        if let Some(d) = &args.description {
            changes.push((TaskField::Description, d.clone()));
        }
        if let Some(d) = &args.due_date {
            changes.push((TaskField::DueDate, d.clone()));
        }
        if let Some(s) = &args.status {
            changes.push((TaskField::Status, s.clone()));
        }
        proof {
            assert(changes@.map_values(view_of) =~= update_changes(args@));
        }
        Ok(ToolPlan::Update { id, changes })
    } else if str_eq(name, "delete_task") {
        let id = required_id(args)?;
        Ok(ToolPlan::Delete(id))
    } else if str_eq(name, "done_task") {
        let id = required_id(args)?;
        Ok(ToolPlan::MarkDone(id))
    } else if str_eq(name, "undone_task") {
        let id = required_id(args)?;
        Ok(ToolPlan::MarkOpen(id))
    } else if str_eq(name, "help") {
        Ok(ToolPlan::Help)
    } else if str_eq(name, "get_config") {
        match &args.key {
            Some(k) => Ok(ToolPlan::GetConfig(k.clone())),
            None => Err(owned("Missing 'key' argument")),
        }
    } else if str_eq(name, "set_config") {
        match (&args.key, &args.value) {
            (Some(k), Some(v)) => Ok(ToolPlan::SetConfig { key: k.clone(), value: v.clone() }),
            (None, _) => Err(owned("Missing 'key' argument")),
            (Some(_), None) => Err(owned("Missing 'value' argument")),
        }
    } else {
        let mut m = owned("Unknown tool: ");
        append_str(&mut m, name);
        Err(m)
    }
}

/// The answer of `update_task` after its changes: success if one of them was made;
/// otherwise the text of the last failure, or that there was nothing to change.
pub open spec fn update_verdict_spec(outcomes: Seq<Result<(), Seq<char>>>) -> Result<(), Seq<char>>
    decreases outcomes.len(),
{
    if exists|i: int| 0 <= i < outcomes.len() && (#[trigger] outcomes[i]) is Ok {
        Ok(())
    } else {
        match last_failure(outcomes) {
            Some(m) => if m.len() > 0 {
                Err(m)
            } else {
                Err("No fields to update"@)
            },
            None => Err("No fields to update"@),
        }
    }
}

/// The text of the last failure among `outcomes`.
pub open spec fn last_failure(outcomes: Seq<Result<(), Seq<char>>>) -> Option<Seq<char>>
    decreases outcomes.len(),
{
    if outcomes.len() == 0 {
        None
    } else {
        match outcomes.last() {
            Err(m) => Some(m),
            Ok(_) => last_failure(outcomes.drop_last()),
        }
    }
}

pub open spec fn outcomes_view(v: Seq<Result<(), String>>) -> Seq<Result<(), Seq<char>>> {
    v.map_values(
        |o: Result<(), String>|
            match o {
                Ok(_) => Ok(()),
                Err(m) => Err(m@),
            },
    )
}

/// The answer of `update_task` from the outcomes of its changes, in order.
pub fn update_verdict(outcomes: &Vec<Result<(), String>>) -> (r: Result<(), String>)
    ensures
        match r {
            Ok(_) => update_verdict_spec(outcomes_view(outcomes@)) == Ok::<(), Seq<char>>(()),
            Err(m) => update_verdict_spec(outcomes_view(outcomes@)) == Err::<(), Seq<char>>(m@),
        },
{
    let ghost ov = outcomes_view(outcomes@);
    let mut updated = false;
    let mut last_error = String::new();
    let n = outcomes.len();
    let mut i: usize = 0;
    while i < n
        invariant
            i <= n == outcomes@.len(),
            ov == outcomes_view(outcomes@),
            updated == exists|k: int| 0 <= k < i && (#[trigger] ov[k]) is Ok,
            last_failure(ov.subrange(0, i as int)) matches Some(m) ==> last_error@ == m,
            last_failure(ov.subrange(0, i as int)) is None ==> last_error@ == Seq::<char>::empty(),
        decreases n - i,
    {
        proof {
            assert(ov.subrange(0, i + 1).drop_last() =~= ov.subrange(0, i as int));
            assert(ov.subrange(0, i + 1).last() == ov[i as int]);
        }
        match &outcomes[i] {
            Ok(_) => {
                updated = true;
            },
            Err(m) => {
                last_error = m.clone();
            },
        }
        i = i + 1;
    }
    proof {
        assert(ov.subrange(0, n as int) =~= ov);
    }
    if updated {
        Ok(())
    } else if !last_error.as_str().is_empty() {
        Err(last_error)
    } else {
        Err(owned("No fields to update"))
    }
}

/// What `create_task` answers for the task created.
pub open spec fn created_text_spec(title: Seq<char>, id: Seq<char>) -> Seq<char> {
    "Task created: "@ + title + " (id: "@ + id + ")"@
}

/// What `update_task` answers for the task updated.
pub open spec fn updated_text_spec(title: Seq<char>, id: Seq<char>) -> Seq<char> {
    "Task updated: "@ + title + " (id: "@ + id + ")"@
}

/// What `create_task` answers for the task created.
pub fn created_text(title: &str, id: &str) -> (r: String)
    ensures
        r@ == created_text_spec(title@, id@),
{
    let mut m = owned("Task created: ");
    append_str(&mut m, title);
    append_str(&mut m, " (id: ");
    append_str(&mut m, id);
    append_str(&mut m, ")");
    m
}

/// What `update_task` answers for the task updated.
pub fn updated_text(title: &str, id: &str) -> (r: String)
    ensures
        r@ == updated_text_spec(title@, id@),
{
    let mut m = owned("Task updated: ");
    append_str(&mut m, title);
    append_str(&mut m, " (id: ");
    append_str(&mut m, id);
    append_str(&mut m, ")");
    m
}

/// What `delete_task`, `done_task` and `undone_task` answer.
pub fn id_text(plan: &ToolPlan, id: &str) -> (r: String)
    ensures
        r@ == (match plan@ {
            ToolPlanView::Delete(_) => "Task deleted: "@,
            ToolPlanView::MarkDone(_) => "Task marked as done: "@,
            _ => "Task marked as not done: "@,
        }) + id@,
{
    let mut m = match plan {
        ToolPlan::Delete(_) => owned("Task deleted: "),
        ToolPlan::MarkDone(_) => owned("Task marked as done: "),
        _ => owned("Task marked as not done: "),
    };
    append_str(&mut m, id);
    m
}

/// The JSON-RPC error code of a tool call that failed.
pub const TOOL_FAILED: i32 = -32603;

/// The JSON-RPC error code of a request line that is not JSON.
pub const NOT_JSON: i32 = -32700;

/// The JSON-RPC error code of a method the server does not know.
pub const NO_SUCH_METHOD: i32 = -32601;

/// What the server does with a request, by its method.
#[derive(Debug)]
pub enum Route {
    /// Answer with the server's name and capabilities.
    Initialize,
    /// A notification: answer nothing.
    Skip,
    /// Answer with the list of tools.
    ListTools,
    /// Run the tool the parameters name.
    CallTool,
    /// Answer with this error.
    Unknown { code: i32, message: String },
}

/// A route with its text as characters.
pub enum RouteView {
    Initialize,
    Skip,
    ListTools,
    CallTool,
    Unknown { code: i32, message: Seq<char> },
}

impl View for Route {
    type V = RouteView;

    open spec fn view(&self) -> RouteView {
        match self {
            Route::Initialize => RouteView::Initialize,
            Route::Skip => RouteView::Skip,
            Route::ListTools => RouteView::ListTools,
            Route::CallTool => RouteView::CallTool,
            Route::Unknown { code, message } => RouteView::Unknown { code: *code, message: message@ },
        }
    }
}

/// The route of the method `method`.
pub open spec fn route_of(method: Seq<char>) -> RouteView {
    if method == "initialize"@ {
        RouteView::Initialize
    } else if method == "notifications/initialized"@ {
        RouteView::Skip
    } else if method == "tools/list"@ {
        RouteView::ListTools
    } else if method == "tools/call"@ {
        RouteView::CallTool
    } else {
        RouteView::Unknown { code: NO_SUCH_METHOD, message: "Method not found: "@ + method }
    }
}

/// Decides what the server does with a request of method `method`.
pub fn route(method: &str) -> (r: Route)
    ensures
        r@ == route_of(method@),
{
    if str_eq(method, "initialize") {
        Route::Initialize
    } else if str_eq(method, "notifications/initialized") {
        Route::Skip
    } else if str_eq(method, "tools/list") {
        Route::ListTools
    } else if str_eq(method, "tools/call") {
        Route::CallTool
    } else {
        let mut m = owned("Method not found: ");
        append_str(&mut m, method);
        Route::Unknown { code: NO_SUCH_METHOD, message: m }
    }
}

/// A call is answered that its tool is unknown exactly when its name is not among the
/// tools listed.
pub proof fn unknown_tools_are_the_unlisted(name: Seq<char>, a: ToolArgsView)
    ensures
        tool_plan(name, a) == Err::<ToolPlanView, Seq<char>>("Unknown tool: "@ + name) <==> !tool_names_spec().contains(
            name,
        ),
{
    lemma_tool_names();
    reveal_strlit("Unknown tool: ");
    reveal_strlit("Missing 'id' argument");
    reveal_strlit("Missing 'title' argument");
    reveal_strlit("Missing 'key' argument");
    reveal_strlit("Missing 'value' argument");
    let names = tool_names_spec();
    let unknown = "Unknown tool: "@ + name;
    assert(unknown[0] == 'U');
    assert("Missing 'id' argument"@[0] == 'M');
    assert("Missing 'title' argument"@[0] == 'M');
    assert("Missing 'key' argument"@[0] == 'M');
    assert("Missing 'value' argument"@[0] == 'M');
    let k = if name == names[0] {
        0int
    } else if name == names[1] {
        1
    } else if name == names[2] {
        2
    } else if name == names[3] {
        3
    } else if name == names[4] {
        4
    } else if name == names[5] {
        5
    } else if name == names[6] {
        6
    } else if name == names[7] {
        7
    } else if name == names[8] {
        8
    } else if name == names[9] {
        9
    } else {
        10
    };
    if k < 10 {
        assert(names[k] == name);
        assert(names.contains(name));
    } else {
        assert forall|i: int| 0 <= i < names.len() implies names[i] != name by {}
    }
}

/// The argument of a call that gives the new value of `f`.
pub open spec fn field_argument(a: ToolArgsView, f: TaskField) -> Option<Seq<char>> {
    match f {
        TaskField::Title => a.title,
        TaskField::Description => a.description,
        TaskField::DueDate => a.due_date,
        TaskField::Status => a.status,
    }
}

/// An `update_task` call with an id plans a change of every field whose argument it
/// gives, to that argument's value, and no other change.
pub proof fn update_plans_every_given_field(a: ToolArgsView)
    requires
        a.id is Some,
    ensures
        tool_plan("update_task"@, a) matches Ok(ToolPlanView::Update { id, changes }) && id == a.id->0
            && (forall|f: TaskField| #[trigger] field_argument(a, f) is Some ==> changes.contains(
            (f, field_argument(a, f)->0),
        ))
            && (forall|i: int|
            0 <= i < changes.len() ==> field_argument(a, (#[trigger] changes[i]).0) == Some(changes[i].1)),
{
    lemma_tool_names();
    let c = update_changes(a);
    let c0 = Seq::<(TaskField, Seq<char>)>::empty();
    let c1 = match a.title {
        Some(t) => c0.push((TaskField::Title, t)),
        None => c0,
    };
    let c2 = match a.description {
        Some(d) => c1.push((TaskField::Description, d)),
        None => c1,
    };
    let c3 = match a.due_date {
        Some(d) => c2.push((TaskField::DueDate, d)),
        None => c2,
    };
    assert(c == match a.status {
        Some(st) => c3.push((TaskField::Status, st)),
        None => c3,
    });
    assert forall|f: TaskField| #[trigger] field_argument(a, f) is Some implies c.contains(
        (f, field_argument(a, f)->0),
    ) by {
        let v = field_argument(a, f)->0;
        match f {
            TaskField::Title => {
                assert(c1[0] == (f, v));
                assert(c2[0] == (f, v));
                assert(c3[0] == (f, v));
                assert(c[0] == (f, v));
            },
            TaskField::Description => {
                assert(c2[c2.len() - 1] == (f, v));
                assert(c3[c2.len() - 1] == (f, v));
                assert(c[c2.len() - 1] == (f, v));
            },
            TaskField::DueDate => {
                assert(c3[c3.len() - 1] == (f, v));
                assert(c[c3.len() - 1] == (f, v));
            },
            TaskField::Status => {
                assert(c[c.len() - 1] == (f, v));
            },
        }
    }
    assert forall|i: int| 0 <= i < c.len() implies field_argument(a, (#[trigger] c[i]).0) == Some(c[i].1) by {
        assert(forall|j: int| 0 <= j < c1.len() ==> field_argument(a, (#[trigger] c1[j]).0) == Some(c1[j].1));
        assert(forall|j: int| 0 <= j < c2.len() ==> field_argument(a, (#[trigger] c2[j]).0) == Some(c2[j].1));
        assert(forall|j: int| 0 <= j < c3.len() ==> field_argument(a, (#[trigger] c3[j]).0) == Some(c3[j].1));
    }
}

/// A `create_task` call with a title plans a task with that title and with the given
/// description (none given: an empty one), and the call asks the store to create
/// exactly that task.
pub proof fn create_plans_the_given_text(a: ToolArgsView)
    requires
        a.title is Some,
    ensures
        tool_plan("create_task"@, a) matches Ok(ToolPlanView::Create { title, description, due }) && title
            == a.title->0 && description == (match a.description {
            Some(d) => d,
            None => Seq::<char>::empty(),
        }) && (a.due_date is None ==> due is None) && crate::tool_call::first_step(
            tool_plan("create_task"@, a)->Ok_0,
        ) == crate::tool_call::ToolStepView::Ask(
            crate::tool_call::ToolRequestView::Create { title, description, due },
        ),
{
    lemma_tool_names();
}

} // verus!
