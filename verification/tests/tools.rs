use easytodo::task::model::{Date, Filter, TaskField};
use easytodo::tools::{
    created_text, id_text, plan_tool_call, route, tool_names, update_verdict, updated_text, Route, ToolArgs, ToolPlan, NOT_JSON,
    NO_SUCH_METHOD, TOOL_FAILED,
};

fn args() -> ToolArgs {
    ToolArgs {
        filter: None,
        id: None,
        title: None,
        description: None,
        due_date: None,
        status: None,
        key: None,
        value: None,
    }
}

fn with_id(id: &str) -> ToolArgs {
    ToolArgs { id: Some(id.to_string()), ..args() }
}

#[test]
fn list_reads_the_filter_or_shows_all() {
    let a = ToolArgs { filter: Some("done".to_string()), ..args() };
    assert!(matches!(plan_tool_call("list_tasks", &a), Ok(ToolPlan::List(Filter::Done))));
    let a = ToolArgs { filter: Some("Open".to_string()), ..args() };
    assert!(matches!(plan_tool_call("list_tasks", &a), Ok(ToolPlan::List(Filter::Todo))));
    let a = ToolArgs { filter: Some("bogus".to_string()), ..args() };
    assert!(matches!(plan_tool_call("list_tasks", &a), Ok(ToolPlan::List(Filter::All))));
    assert!(matches!(plan_tool_call("list_tasks", &args()), Ok(ToolPlan::List(Filter::All))));
}

#[test]
fn tools_on_one_task_need_an_id() {
    for name in ["get_task", "update_task", "delete_task", "done_task", "undone_task"] {
        assert_eq!(plan_tool_call(name, &args()).unwrap_err(), "Missing 'id' argument");
    }
    assert!(matches!(plan_tool_call("get_task", &with_id("a")), Ok(ToolPlan::Get(id)) if id == "a"));
    assert!(matches!(plan_tool_call("delete_task", &with_id("a")), Ok(ToolPlan::Delete(id)) if id == "a"));
    assert!(matches!(plan_tool_call("done_task", &with_id("a")), Ok(ToolPlan::MarkDone(id)) if id == "a"));
    assert!(matches!(plan_tool_call("undone_task", &with_id("a")), Ok(ToolPlan::MarkOpen(id)) if id == "a"));
}

#[test]
fn create_needs_a_title_and_reads_the_due_date() {
    assert_eq!(plan_tool_call("create_task", &args()).unwrap_err(), "Missing 'title' argument");
    let a = ToolArgs { title: Some("T".to_string()), due_date: Some("2026-05-10".to_string()), ..args() };
    match plan_tool_call("create_task", &a) {
        Ok(ToolPlan::Create { title, description, due }) => {
            assert_eq!(title, "T");
            assert_eq!(description, "");
            assert_eq!(due, Some(Date { year: 2026, month: 5, day: 10 }));
        },
        other => panic!("unexpected {:?}", other),
    }
    let a = ToolArgs { title: Some("T".to_string()), due_date: Some("someday".to_string()), ..args() };
    assert!(matches!(plan_tool_call("create_task", &a), Ok(ToolPlan::Create { due: None, .. })));
}

#[test]
fn update_changes_come_in_field_order() {
    let a = ToolArgs {
        id: Some("x".to_string()),
        status: Some("done".to_string()),
        title: Some("T".to_string()),
        due_date: Some("".to_string()),
        ..args()
    };
    match plan_tool_call("update_task", &a) {
        Ok(ToolPlan::Update { id, changes }) => {
            assert_eq!(id, "x");
            let fields: Vec<TaskField> = changes.iter().map(|c| c.0).collect();
            assert_eq!(fields, vec![TaskField::Title, TaskField::DueDate, TaskField::Status]);
            assert_eq!(changes[1].1, "");
            assert_eq!(changes[2].1, "done");
        },
        other => panic!("unexpected {:?}", other),
    }
}

#[test]
fn unknown_tools_and_help() {
    assert_eq!(plan_tool_call("frobnicate", &args()).unwrap_err(), "Unknown tool: frobnicate");
    assert!(matches!(plan_tool_call("help", &args()), Ok(ToolPlan::Help)));
}

#[test]
fn one_change_made_is_success() {
    assert_eq!(update_verdict(&vec![Err("a".to_string()), Ok(())]), Ok(()));
    assert_eq!(update_verdict(&vec![Ok(()), Err("b".to_string())]), Ok(()));
}

#[test]
fn otherwise_the_last_failure_is_reported() {
    assert_eq!(update_verdict(&vec![Err("a".to_string()), Err("b".to_string())]), Err("b".to_string()));
    assert_eq!(update_verdict(&vec![]), Err("No fields to update".to_string()));
    assert_eq!(update_verdict(&vec![Err("a".to_string()), Err(String::new())]), Err("No fields to update".to_string()));
}

#[test]
fn answers_of_the_tools() {
    assert_eq!(created_text("Milk", "abc"), "Task created: Milk (id: abc)");
    assert_eq!(updated_text("Milk", "abc"), "Task updated: Milk (id: abc)");
    assert_eq!(id_text(&ToolPlan::Delete("abc".to_string()), "abc"), "Task deleted: abc");
    assert_eq!(id_text(&ToolPlan::MarkDone("abc".to_string()), "abc"), "Task marked as done: abc");
    assert_eq!(id_text(&ToolPlan::MarkOpen("abc".to_string()), "abc"), "Task marked as not done: abc");
}

#[test]
fn requests_are_routed_by_method() {
    assert!(matches!(route("initialize"), Route::Initialize));
    assert!(matches!(route("notifications/initialized"), Route::Skip));
    assert!(matches!(route("tools/list"), Route::ListTools));
    assert!(matches!(route("tools/call"), Route::CallTool));
    match route("ping") {
        Route::Unknown { code, message } => {
            assert_eq!(code, -32601);
            assert_eq!(message, "Method not found: ping");
        },
        other => panic!("unexpected {:?}", other),
    }
    assert_eq!(NO_SUCH_METHOD, -32601);
    assert_eq!(TOOL_FAILED, -32603);
    assert_eq!(NOT_JSON, -32700);
}

#[test]
fn settings_tools_need_their_arguments() {
    assert_eq!(plan_tool_call("get_config", &args()).unwrap_err(), "Missing 'key' argument");
    assert_eq!(plan_tool_call("set_config", &args()).unwrap_err(), "Missing 'key' argument");
    let a = ToolArgs { key: Some("editor".to_string()), ..args() };
    assert_eq!(plan_tool_call("set_config", &a).unwrap_err(), "Missing 'value' argument");
    assert!(matches!(plan_tool_call("get_config", &a), Ok(ToolPlan::GetConfig(k)) if k == "editor"));
    let a = ToolArgs { key: Some("editor".to_string()), value: Some("nvim".to_string()), ..args() };
    match plan_tool_call("set_config", &a) {
        Ok(ToolPlan::SetConfig { key, value }) => {
            assert_eq!(key, "editor");
            assert_eq!(value, "nvim");
        },
        other => panic!("unexpected {:?}", other),
    }
}

#[test]
fn listed_tools_are_the_known_tools() {
    let names = tool_names();
    assert_eq!(names.len(), 10);
    for name in &names {
        if let Err(m) = plan_tool_call(name, &args()) {
            assert!(!m.starts_with("Unknown tool"), "{}", name);
        }
    }
    assert!(plan_tool_call("list_task", &args()).unwrap_err().starts_with("Unknown tool"));
}
