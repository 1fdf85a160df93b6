use easytodo::action::Action;
use easytodo::app::{App, AppMode, Reply, Request, Step};
use easytodo::config::Config;
use easytodo::errors::AppError;
use easytodo::task::model::{Filter, Status, Task, TaskField, Timestamp};
use easytodo::task::store::{new_task, FsTaskStore};
use easytodo::tui::{KeyCode, KeyEvent};

fn app() -> App {
    App::new(FsTaskStore::new("/tmp/easytodo-tests".to_string()), Config::default())
}

fn task(id: &str, title: &str, status: Status) -> Task {
    let mut t = new_task(id.to_string(), title, "", None, Timestamp { secs: 1, nanos: 0 });
    t.status = status;
    t
}

fn listed(a: &mut App, ts: Vec<Task>) {
    a.refresh_tasks(ts);
}

fn message(a: &App) -> String {
    a.status_message.clone().unwrap_or_default()
}

fn finished_ok(s: &Step) -> bool {
    matches!(s, Step::Finished(Ok(())))
}

#[test]
fn new_app_is_idle() {
    let a = app();
    assert_eq!(a.mode, AppMode::Normal);
    assert!(a.tasks.is_empty());
    assert_eq!(a.filter, Filter::All);
    assert!(a.status_message.is_none());
    assert!(!a.should_quit);
    assert!(!a.command_bar.visible);
    assert!(!a.modal.is_open());
    assert_eq!(a.store.data_dir(), "/tmp/easytodo-tests");
}

#[test]
fn creating_a_task_lists_again_and_reports() {
    let mut a = app();
    let s = a.handle_action(Action::NewTask { title: "Buy milk".to_string(), description: "2l".to_string(), due: None });
    match s {
        Step::Request(Request::Create { title, description, due }) => {
            assert_eq!(title, "Buy milk");
            assert_eq!(description, "2l");
            assert_eq!(due, None);
        },
        other => panic!("unexpected {:?}", other),
    }
    let t = task("abc123", "Buy milk", Status::Open);
    let s = a.handle_reply(Reply::Task(Ok(t.clone())));
    assert!(matches!(s, Step::Request(Request::List(Filter::All))));
    let s = a.handle_reply(Reply::Tasks(Ok(vec![t])));
    assert!(finished_ok(&s));
    assert_eq!(a.tasks.len(), 1);
    assert_eq!(message(&a), "Task 'Buy milk' created (id: abc123)");
    assert_eq!(a.message_serial, 1);
}

#[test]
fn failed_create_ends_with_the_error() {
    let mut a = app();
    a.handle_action(Action::NewTask { title: "T".to_string(), description: String::new(), due: None });
    let s = a.handle_reply(Reply::Task(Err(AppError::TaskNotFound("x".to_string()))));
    assert!(matches!(s, Step::Finished(Err(AppError::TaskNotFound(_)))));
    assert!(a.status_message.is_none());
}

#[test]
fn moving_stays_on_the_list() {
    let mut a = app();
    listed(&mut a, vec![task("a", "A", Status::Open), task("b", "B", Status::Open)]);
    assert!(finished_ok(&a.handle_action(Action::MoveDown)));
    assert_eq!(a.task_list.selected_index, 1);
    a.handle_action(Action::MoveDown);
    assert_eq!(a.task_list.selected_index, 1);
    a.handle_action(Action::MoveUp);
    a.handle_action(Action::MoveUp);
    assert_eq!(a.task_list.selected_index, 0);
}

#[test]
fn listing_keeps_the_selection_on_the_list() {
    let mut a = app();
    listed(&mut a, vec![task("a", "A", Status::Open), task("b", "B", Status::Open), task("c", "C", Status::Open)]);
    a.handle_action(Action::MoveDown);
    a.handle_action(Action::MoveDown);
    listed(&mut a, vec![task("a", "A", Status::Open)]);
    assert_eq!(a.task_list.selected_index, 0);
    listed(&mut a, Vec::new());
    assert_eq!(a.task_list.selected_index, 0);
    assert_eq!(a.task_list.scroll_offset, 0);
}

#[test]
fn dot_is_the_selected_task() {
    let mut a = app();
    assert!(matches!(a.resolve_id("."), Err(AppError::CommandError(m)) if m == "No task selected"));
    assert_eq!(a.resolve_id("abc").unwrap(), "abc");
    listed(&mut a, vec![task("a1", "A", Status::Open), task("b2", "B", Status::Open)]);
    a.handle_action(Action::MoveDown);
    assert_eq!(a.resolve_id(".").unwrap(), "b2");
}

#[test]
fn editing_nothing_selected_reports() {
    let mut a = app();
    let s = a.handle_action(Action::EditTask { id: ".".to_string(), fields: Vec::new() });
    assert!(finished_ok(&s));
    assert_eq!(message(&a), "Command error: No task selected");
}

#[test]
fn editing_goes_field_by_field() {
    let mut a = app();
    let fields = vec![("title".to_string(), "New".to_string()), ("STATUS".to_string(), "done".to_string())];
    let s = a.handle_action(Action::EditTask { id: "abc".to_string(), fields });
    match s {
        Step::Request(Request::Update { id, field, value }) => {
            assert_eq!(id, "abc");
            assert_eq!(field, TaskField::Title);
            assert_eq!(value, "New");
        },
        other => panic!("unexpected {:?}", other),
    }
    let s = a.handle_reply(Reply::Task(Ok(task("abc", "New", Status::Open))));
    assert!(matches!(s, Step::Request(Request::Update { field: TaskField::Status, .. })));
    let s = a.handle_reply(Reply::Task(Ok(task("abc", "New", Status::Done))));
    assert!(matches!(s, Step::Request(Request::List(Filter::All))));
    let s = a.handle_reply(Reply::Tasks(Ok(Vec::new())));
    assert!(finished_ok(&s));
    assert_eq!(message(&a), "Task updated");
}

#[test]
fn editing_an_unknown_field_stops() {
    let mut a = app();
    let fields = vec![("colour".to_string(), "red".to_string())];
    let s = a.handle_action(Action::EditTask { id: "abc".to_string(), fields });
    assert!(finished_ok(&s));
    assert_eq!(message(&a), "Unknown field 'colour'. Valid: title, description, due, status");
}

#[test]
fn toggling_asks_for_the_other_status() {
    let mut a = app();
    listed(&mut a, vec![task("a", "A", Status::Done)]);
    match a.handle_action(Action::ToggleDoneSelected) {
        Step::Request(Request::Update { id, field, value }) => {
            assert_eq!(id, "a");
            assert_eq!(field, TaskField::Status);
            assert_eq!(value, "open");
        },
        other => panic!("unexpected {:?}", other),
    }
    let s = a.handle_reply(Reply::Task(Ok(task("a", "A", Status::Open))));
    assert!(matches!(s, Step::Request(Request::List(_))));
}

#[test]
fn deleting_asks_first() {
    let mut a = app();
    listed(&mut a, vec![task("a", "Old", Status::Open)]);
    assert!(finished_ok(&a.handle_action(Action::DeleteSelected)));
    assert_eq!(a.mode, AppMode::Modal);
    let act = a.handle_key(&KeyEvent { code: KeyCode::Char('y'), ctrl: false }).unwrap();
    assert_eq!(a.mode, AppMode::Normal);
    let s = a.handle_action(act);
    assert!(matches!(s, Step::Request(Request::Delete(id)) if id == "a"));
    let s = a.handle_reply(Reply::Done(Ok(())));
    assert!(matches!(s, Step::Request(Request::List(_))));
    a.handle_reply(Reply::Tasks(Ok(Vec::new())));
    assert_eq!(message(&a), "Task deleted");
    assert!(a.tasks.is_empty());
}

#[test]
fn delete_command_reads_the_task_first() {
    let mut a = app();
    let s = a.handle_action(Action::ShowConfirmDelete("abc".to_string()));
    assert!(matches!(s, Step::Request(Request::Get(id)) if id == "abc"));
    let s = a.handle_reply(Reply::Task(Ok(task("abc", "Milk", Status::Open))));
    assert!(finished_ok(&s));
    assert_eq!(a.mode, AppMode::Modal);
    assert!(a.modal.is_open());
    let s = a.handle_action(Action::ShowConfirmDelete("zzz".to_string()));
    assert!(matches!(s, Step::Request(Request::Get(_))));
    a.handle_reply(Reply::Task(Err(AppError::TaskNotFound("zzz".to_string()))));
    assert_eq!(message(&a), "Task not found: zzz");
}

#[test]
fn cloning_reports_the_copy() {
    let mut a = app();
    let s = a.handle_action(Action::CloneTask("abc".to_string()));
    assert!(matches!(s, Step::Request(Request::Clone(id)) if id == "abc"));
    a.handle_reply(Reply::Task(Ok(task("def", "Milk (copy)", Status::Open))));
    a.handle_reply(Reply::Tasks(Ok(Vec::new())));
    assert_eq!(message(&a), "Task cloned as 'Milk (copy)' (id: def)");
}

#[test]
fn opening_in_the_editor() {
    let mut a = app();
    let s = a.handle_action(Action::OpenTaskExternal("abc".to_string()));
    assert!(matches!(s, Step::Request(Request::Get(_))));
    let s = a.handle_reply(Reply::Task(Ok(task("abc", "Milk", Status::Open))));
    assert!(matches!(s, Step::Request(Request::OpenTask(id)) if id == "abc"));
    let s = a.handle_reply(Reply::Opened(Ok(true)));
    assert!(finished_ok(&s));
    assert_eq!(message(&a), "Task 'Milk' opened in editor tab");
    a.handle_action(Action::OpenTaskExternal("abc".to_string()));
    a.handle_reply(Reply::Task(Ok(task("abc", "Milk", Status::Open))));
    let s = a.handle_reply(Reply::Opened(Ok(false)));
    assert!(matches!(s, Step::Request(Request::List(_))));
    a.handle_reply(Reply::Tasks(Ok(Vec::new())));
    assert_eq!(message(&a), "Task 'Milk' updated");
    a.handle_action(Action::OpenTaskExternal("abc".to_string()));
    a.handle_reply(Reply::Task(Ok(task("abc", "Milk", Status::Open))));
    a.handle_reply(Reply::Opened(Err(AppError::Editor("exit 1".to_string()))));
    assert_eq!(message(&a), "Editor error: Editor error: exit 1");
}

#[test]
fn filter_failure_is_reported_with_the_error_alone() {
    let mut a = app();
    let s = a.handle_action(Action::SetFilter(Filter::Done));
    assert!(matches!(s, Step::Request(Request::List(Filter::Done))));
    assert_eq!(a.filter, Filter::Done);
    a.handle_reply(Reply::Tasks(Err(AppError::Toml("bad".to_string()))));
    assert_eq!(message(&a), "TOML error: bad");
}

#[test]
fn setting_a_value_saves_and_reports() {
    let mut a = app();
    let s = a.handle_action(Action::ConfigAction { key: Some("editor".to_string()), value: Some("nvim".to_string()) });
    assert!(matches!(s, Step::Request(Request::SaveConfig)));
    assert_eq!(a.config.editor, "nvim");
    a.handle_reply(Reply::Done(Ok(())));
    assert_eq!(message(&a), "editor set to nvim");
}

#[test]
fn setting_an_unknown_key_reports() {
    let mut a = app();
    let s = a.handle_action(Action::ConfigAction { key: Some("theme.x".to_string()), value: Some("1".to_string()) });
    assert!(finished_ok(&s));
    assert_eq!(message(&a), "Config error: Unknown theme key: 'x'");
    let s = a.handle_action(Action::ConfigAction { key: None, value: Some("1".to_string()) });
    assert!(finished_ok(&s));
    assert_eq!(message(&a), "Cannot set a value without a key");
}

#[test]
fn reading_a_value_uses_the_editor_variable() {
    let mut a = app();
    let s = a.handle_action(Action::ConfigAction { key: Some("editor".to_string()), value: None });
    assert!(matches!(s, Step::Request(Request::ReadEditorVariable)));
    a.handle_reply(Reply::Variable(Some("nano".to_string())));
    assert_eq!(message(&a), "editor = nano");
    a.handle_action(Action::ConfigAction { key: Some("nope".to_string()), value: None });
    a.handle_reply(Reply::Variable(None));
    assert_eq!(message(&a), "Unknown key: nope");
}

#[test]
fn opening_the_settings_reloads_them() {
    let mut a = app();
    let s = a.handle_action(Action::ConfigAction { key: None, value: None });
    assert!(matches!(s, Step::Request(Request::OpenConfigFile)));
    let s = a.handle_reply(Reply::Opened(Ok(false)));
    assert!(matches!(s, Step::Request(Request::LoadConfig)));
    let mut c = Config::default();
    c.set("editor", "emacs").unwrap();
    a.handle_reply(Reply::Config(Ok(c)));
    assert_eq!(a.config.editor, "emacs");
    assert_eq!(message(&a), "Config updated");
}

#[test]
fn migrating_saves_the_new_setting() {
    let mut a = app();
    let s = a.handle_action(Action::MigrateData("~/sync".to_string()));
    assert!(matches!(s, Step::Request(Request::Migrate(p)) if p == "~/sync"));
    let s = a.handle_reply(Reply::Migrated(Ok("~/sync".to_string())));
    assert!(matches!(s, Step::Request(Request::SaveConfig)));
    assert_eq!(a.config.data_dir, "~/sync");
    let s = a.handle_reply(Reply::Done(Ok(())));
    assert!(matches!(s, Step::Request(Request::List(_))));
    a.handle_reply(Reply::Tasks(Err(AppError::HomeDir)));
    assert_eq!(message(&a), "Data migrated but reload failed: Could not find home directory");
    a.handle_action(Action::MigrateData("~/x".to_string()));
    a.handle_reply(Reply::NoHome);
    assert_eq!(message(&a), "Could not resolve home directory");
}

#[test]
fn reloading_lists_again() {
    let mut a = app();
    let s = a.handle_action(Action::Reload);
    assert!(matches!(s, Step::Request(Request::LoadConfig)));
    let s = a.handle_reply(Reply::Config(Err(AppError::HomeDir)));
    assert!(matches!(s, Step::Request(Request::List(_))));
    a.handle_reply(Reply::Tasks(Ok(vec![task("a", "A", Status::Open)])));
    assert_eq!(message(&a), "Reloaded");
    assert_eq!(a.tasks.len(), 1);
}

#[test]
fn a_reply_of_another_kind_ends_the_wait() {
    let mut a = app();
    a.handle_action(Action::Reload);
    let s = a.handle_reply(Reply::Done(Ok(())));
    assert!(finished_ok(&s));
    let s = a.handle_reply(Reply::Tasks(Ok(vec![task("a", "A", Status::Open)])));
    assert!(finished_ok(&s));
    assert!(a.tasks.is_empty());
}

#[test]
fn keys_by_mode() {
    let mut a = app();
    let k = |c: char| KeyEvent { code: KeyCode::Char(c), ctrl: false };
    assert!(matches!(a.handle_key(&k('j')), Some(Action::MoveDown)));
    let act = a.handle_key(&KeyEvent { code: KeyCode::Char('p'), ctrl: true }).unwrap();
    assert!(matches!(act, Action::ToggleCommandBar));
    a.handle_action(act);
    assert_eq!(a.mode, AppMode::Command);
    assert!(a.handle_key(&k('q')).is_none());
    assert_eq!(a.command_bar.input, "q");
    let act = a.handle_key(&KeyEvent { code: KeyCode::Enter, ctrl: false });
    assert!(matches!(act, Some(Action::Quit)));
    assert_eq!(a.mode, AppMode::Normal);
    a.handle_action(act.unwrap());
    assert!(a.should_quit);
}

#[test]
fn control_keys_in_the_command_bar() {
    let mut a = app();
    a.handle_action(Action::ToggleCommandBar);
    assert!(a.handle_key(&KeyEvent { code: KeyCode::Char('p'), ctrl: true }).is_none());
    assert_eq!(a.mode, AppMode::Normal);
    assert!(!a.command_bar.visible);
    a.handle_action(Action::ToggleCommandBar);
    let act = a.handle_key(&KeyEvent { code: KeyCode::Char('n'), ctrl: true });
    assert!(matches!(act, Some(Action::NewTaskPrefill)));
    a.handle_action(act.unwrap());
    assert_eq!(a.command_bar.input, "new ");
    assert_eq!(a.command_bar.cursor_position, 4);
    assert_eq!(a.mode, AppMode::Command);
}

#[test]
fn help_opens_the_window() {
    let mut a = app();
    a.handle_action(Action::HelpCommand);
    assert_eq!(a.mode, AppMode::Modal);
    let act = a.handle_key(&KeyEvent { code: KeyCode::Esc, ctrl: false });
    assert!(matches!(act, Some(Action::CloseModal)));
    assert_eq!(a.mode, AppMode::Normal);
}

#[test]
fn status_messages_expire_after_three_seconds() {
    let mut a = app();
    a.set_status_message("hi".to_string());
    a.clear_expired_message(Some(2));
    assert_eq!(message(&a), "hi");
    a.clear_expired_message(Some(3));
    assert!(a.status_message.is_none());
    a.set_status_message("again".to_string());
    a.handle_action(Action::ToggleCommandBar);
    a.clear_expired_message(Some(10));
    assert_eq!(message(&a), "again");
    assert_eq!(a.message_serial, 2);
}

#[test]
fn changed_files_reload_and_say_so() {
    let mut a = app();
    let mut c = Config::default();
    c.set("editor", "helix").unwrap();
    a.settings_file_changed(Ok(c));
    assert_eq!(a.config.editor, "helix");
    assert_eq!(message(&a), "Config reloaded");
    a.settings_file_changed(Err(AppError::HomeDir));
    assert_eq!(a.config.editor, "helix");
    a.task_file_changed(Ok(vec![task("a", "A", Status::Open)]));
    assert_eq!(a.tasks.len(), 1);
    assert_eq!(message(&a), "Task file changed, list refreshed");
    a.task_file_changed(Err(AppError::HomeDir));
    assert_eq!(a.tasks.len(), 1);
    assert_eq!(a.message_serial, 4);
}

#[test]
fn keys_that_would_cut_a_character_are_refused() {
    let mut a = app();
    a.handle_action(Action::ToggleCommandBar);
    a.command_bar.show_with_text("\u{e9}");
    a.command_bar.cursor_position = 1;
    let typed = KeyEvent { code: KeyCode::Char('x'), ctrl: false };
    assert!(!a.accepts_key(&typed));
    assert!(a.accepts_key(&KeyEvent { code: KeyCode::Char('p'), ctrl: true }));
    a.command_bar.cursor_position = 2;
    assert!(a.accepts_key(&typed));
}
