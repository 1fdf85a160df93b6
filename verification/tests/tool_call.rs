use easytodo::config::Config;
use easytodo::errors::AppError;
use easytodo::task::model::{Filter, Status, Task, TaskField, Timestamp};
use easytodo::task::store::new_task;
use easytodo::tool_call::{ToolAnswer, ToolCall, ToolReply, ToolRequest, ToolStep};
use easytodo::tools::ToolPlan;

fn task(id: &str, title: &str) -> Task {
    new_task(id.to_string(), title, "", None, Timestamp { secs: 0, nanos: 0 })
}

fn text(step: ToolStep) -> String {
    match step {
        ToolStep::Answer(Ok(ToolAnswer::Text(t))) => t,
        other => panic!("unexpected {:?}", other),
    }
}

fn failure(step: ToolStep) -> String {
    match step {
        ToolStep::Answer(Err(m)) => m,
        other => panic!("unexpected {:?}", other),
    }
}

#[test]
fn listing_answers_the_tasks() {
    let (mut call, step) = ToolCall::start(ToolPlan::List(Filter::Done));
    assert!(matches!(step, ToolStep::Ask(ToolRequest::List(Filter::Done))));
    let mut done = task("a", "A");
    done.status = Status::Done;
    match call.resume(ToolReply::Tasks(Ok(vec![done]))) {
        ToolStep::Answer(Ok(ToolAnswer::Tasks(ts))) => assert_eq!(ts.len(), 1),
        other => panic!("unexpected {:?}", other),
    }
}

#[test]
fn reading_a_missing_task_fails_with_its_text() {
    let (mut call, step) = ToolCall::start(ToolPlan::Get("x".to_string()));
    assert!(matches!(step, ToolStep::Ask(ToolRequest::Get(id)) if id == "x"));
    let step = call.resume(ToolReply::Task(Err(AppError::TaskNotFound("x".to_string()))));
    assert_eq!(failure(step), "Task not found: x");
}

#[test]
fn reading_a_task_answers_it() {
    let (mut call, _) = ToolCall::start(ToolPlan::Get("x".to_string()));
    match call.resume(ToolReply::Task(Ok(task("x", "Milk")))) {
        ToolStep::Answer(Ok(ToolAnswer::Task(t))) => assert_eq!(t.title, "Milk"),
        other => panic!("unexpected {:?}", other),
    }
}

#[test]
fn creating_answers_title_and_id() {
    let plan = ToolPlan::Create { title: "Milk".to_string(), description: "2l".to_string(), due: None };
    let (mut call, step) = ToolCall::start(plan);
    assert!(matches!(step, ToolStep::Ask(ToolRequest::Create { ref title, .. }) if title == "Milk"));
    assert_eq!(text(call.resume(ToolReply::Task(Ok(task("abc", "Milk"))))), "Task created: Milk (id: abc)");
}

#[test]
fn an_update_makes_each_change_then_reads_the_task() {
    let changes = vec![(TaskField::Title, "T".to_string()), (TaskField::Status, "bad".to_string())];
    let (mut call, step) = ToolCall::start(ToolPlan::Update { id: "x".to_string(), changes });
    assert!(matches!(step, ToolStep::Ask(ToolRequest::Update { field: TaskField::Title, ref value, .. }) if value == "T"));
    let step = call.resume(ToolReply::Task(Ok(task("x", "T"))));
    assert!(matches!(step, ToolStep::Ask(ToolRequest::Update { field: TaskField::Status, ref value, .. }) if value == "bad"));
    let step = call.resume(ToolReply::Task(Err(AppError::ParseError("no".to_string()))));
    assert!(matches!(step, ToolStep::Ask(ToolRequest::Get(ref id)) if id == "x"));
    assert_eq!(text(call.resume(ToolReply::Task(Ok(task("x", "T"))))), "Task updated: T (id: x)");
}

#[test]
fn an_update_without_success_reports_the_last_failure() {
    let changes = vec![(TaskField::DueDate, "soon".to_string()), (TaskField::Status, "bad".to_string())];
    let (mut call, _) = ToolCall::start(ToolPlan::Update { id: "x".to_string(), changes });
    call.resume(ToolReply::Task(Err(AppError::ParseError("first".to_string()))));
    let step = call.resume(ToolReply::Task(Err(AppError::ParseError("second".to_string()))));
    assert_eq!(failure(step), "Parse error: second");
}

#[test]
fn an_update_with_nothing_to_change_fails_at_once() {
    let (_, step) = ToolCall::start(ToolPlan::Update { id: "x".to_string(), changes: Vec::new() });
    assert_eq!(failure(step), "No fields to update");
}

#[test]
fn deleting_and_marking_answer_the_id() {
    let (mut call, step) = ToolCall::start(ToolPlan::Delete("x".to_string()));
    assert!(matches!(step, ToolStep::Ask(ToolRequest::Delete(ref id)) if id == "x"));
    assert_eq!(text(call.resume(ToolReply::Done(Ok(())))), "Task deleted: x");

    let (mut call, step) = ToolCall::start(ToolPlan::MarkDone("x".to_string()));
    assert!(matches!(step, ToolStep::Ask(ToolRequest::Update { field: TaskField::Status, ref value, .. }) if value == "done"));
    assert_eq!(text(call.resume(ToolReply::Task(Ok(task("x", "T"))))), "Task marked as done: x");

    let (mut call, step) = ToolCall::start(ToolPlan::MarkOpen("x".to_string()));
    assert!(matches!(step, ToolStep::Ask(ToolRequest::Update { ref value, .. }) if value == "open"));
    assert_eq!(text(call.resume(ToolReply::Task(Ok(task("x", "T"))))), "Task marked as not done: x");

    let (mut call, _) = ToolCall::start(ToolPlan::Delete("x".to_string()));
    let step = call.resume(ToolReply::Done(Err(AppError::TaskNotFound("x".to_string()))));
    assert_eq!(failure(step), "Task not found: x");
}

#[test]
fn help_answers_at_once() {
    let (call, step) = ToolCall::start(ToolPlan::Help);
    assert!(matches!(step, ToolStep::Answer(Ok(ToolAnswer::Help))));
    assert!(!call.fits(&ToolReply::Done(Ok(()))));
}

#[test]
fn replies_must_fit_the_request() {
    let (call, _) = ToolCall::start(ToolPlan::List(Filter::All));
    assert!(call.fits(&ToolReply::Tasks(Ok(Vec::new()))));
    assert!(!call.fits(&ToolReply::Done(Ok(()))));
    let (call, _) = ToolCall::start(ToolPlan::Get("x".to_string()));
    assert!(call.fits(&ToolReply::Task(Err(AppError::HomeDir))));
    assert!(!call.fits(&ToolReply::Tasks(Ok(Vec::new()))));
}

#[test]
fn reading_a_setting_uses_the_editor_variable() {
    let (mut call, step) = ToolCall::start(ToolPlan::GetConfig("editor".to_string()));
    assert!(matches!(step, ToolStep::Ask(ToolRequest::Settings)));
    let step = call.resume(ToolReply::Settings(Ok(Config::default()), Some("nano".to_string())));
    assert_eq!(text(step), "editor = nano");
    let (mut call, _) = ToolCall::start(ToolPlan::GetConfig("colour".to_string()));
    let step = call.resume(ToolReply::Settings(Ok(Config::default()), None));
    assert_eq!(failure(step), "Unknown key: colour");
    let (mut call, _) = ToolCall::start(ToolPlan::GetConfig("editor".to_string()));
    let step = call.resume(ToolReply::Settings(Err(AppError::HomeDir), None));
    assert_eq!(failure(step), "Could not find home directory");
}

#[test]
fn changing_a_setting_writes_the_settings() {
    let plan = ToolPlan::SetConfig { key: "theme.border".to_string(), value: "#ffffff".to_string() };
    let (mut call, _) = ToolCall::start(plan);
    assert!(call.fits(&ToolReply::Settings(Ok(Config::default()), None)));
    match call.resume(ToolReply::Settings(Ok(Config::default()), None)) {
        ToolStep::Ask(ToolRequest::SaveSettings(c)) => assert_eq!(c.theme.border, "#ffffff"),
        other => panic!("unexpected {:?}", other),
    }
    assert!(call.fits(&ToolReply::Done(Ok(()))));
    assert_eq!(text(call.resume(ToolReply::Done(Ok(())))), "theme.border set to #ffffff");

    let plan = ToolPlan::SetConfig { key: "theme.nope".to_string(), value: "x".to_string() };
    let (mut call, _) = ToolCall::start(plan);
    let step = call.resume(ToolReply::Settings(Ok(Config::default()), None));
    assert_eq!(failure(step), "Config error: Unknown theme key: 'nope'");
}
