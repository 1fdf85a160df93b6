use easytodo::action::Action;
use easytodo::commands::Command;
use easytodo::task::model::{Date, Filter};
use easytodo::tui::command_bar::{action_for_command, CommandBar};
use easytodo::tui::{KeyCode, KeyEvent};

fn key(code: KeyCode) -> KeyEvent {
    KeyEvent { code, ctrl: false }
}

fn type_text(bar: &mut CommandBar, text: &str) {
    for c in text.chars() {
        assert!(bar.handle_input(&key(KeyCode::Char(c))).is_none());
    }
}

fn enter(text: &str) -> Option<Action> {
    let mut bar = CommandBar::new();
    bar.show();
    type_text(&mut bar, text);
    let r = bar.handle_input(&key(KeyCode::Enter));
    assert!(!bar.visible);
    assert_eq!(bar.input, "");
    r
}

#[test]
fn new_bar_is_hidden_and_takes_no_keys() {
    let mut bar = CommandBar::new();
    assert!(!bar.visible);
    assert!(bar.handle_input(&key(KeyCode::Char('x'))).is_none());
    assert_eq!(bar.input, "");
    assert_eq!(bar.cursor_position, 0);
}

#[test]
fn typing_inserts_at_the_cursor() {
    let mut bar = CommandBar::new();
    bar.show();
    type_text(&mut bar, "ac");
    bar.handle_input(&key(KeyCode::Left));
    type_text(&mut bar, "b");
    assert_eq!(bar.input, "abc");
    assert_eq!(bar.cursor_position, 2);
    bar.handle_input(&key(KeyCode::Home));
    type_text(&mut bar, ">");
    assert_eq!(bar.input, ">abc");
    bar.handle_input(&key(KeyCode::End));
    assert_eq!(bar.cursor_position, 4);
}

#[test]
fn backspace_undoes_typing() {
    let mut bar = CommandBar::new();
    bar.show_with_text("list");
    assert_eq!(bar.cursor_position, 4);
    type_text(&mut bar, "x");
    bar.handle_input(&key(KeyCode::Backspace));
    assert_eq!(bar.input, "list");
    assert_eq!(bar.cursor_position, 4);
}

#[test]
fn delete_removes_under_the_cursor() {
    let mut bar = CommandBar::new();
    bar.show_with_text("abc");
    bar.handle_input(&key(KeyCode::Delete));
    assert_eq!(bar.input, "abc");
    bar.handle_input(&key(KeyCode::Home));
    bar.handle_input(&key(KeyCode::Delete));
    assert_eq!(bar.input, "bc");
    assert_eq!(bar.cursor_position, 0);
    bar.handle_input(&key(KeyCode::Backspace));
    assert_eq!(bar.input, "bc");
}

#[test]
fn cursor_keys_stay_inside_the_text() {
    let mut bar = CommandBar::new();
    bar.show_with_text("ab");
    bar.handle_input(&key(KeyCode::Right));
    assert_eq!(bar.cursor_position, 2);
    bar.handle_input(&key(KeyCode::Left));
    bar.handle_input(&key(KeyCode::Left));
    bar.handle_input(&key(KeyCode::Left));
    assert_eq!(bar.cursor_position, 0);
    assert_eq!(bar.input, "ab");
}

#[test]
fn escape_hides_and_empties() {
    let mut bar = CommandBar::new();
    bar.show_with_text("quit");
    assert!(bar.handle_input(&key(KeyCode::Esc)).is_none());
    assert!(!bar.visible);
    assert_eq!(bar.input, "");
    assert_eq!(bar.cursor_position, 0);
}

#[test]
fn enter_runs_the_command() {
    assert!(matches!(enter("list done"), Some(Action::SetFilter(Filter::Done))));
    assert!(matches!(enter("list"), Some(Action::SetFilter(Filter::All))));
    assert!(matches!(enter("q"), Some(Action::Quit)));
    assert!(matches!(enter("help"), Some(Action::HelpCommand)));
    assert!(matches!(enter("open abc"), Some(Action::OpenTaskExternal(id)) if id == "abc"));
    assert!(matches!(enter("rm abc"), Some(Action::ShowConfirmDelete(id)) if id == "abc"));
}

#[test]
fn enter_on_blank_text_does_nothing() {
    assert!(enter("").is_none());
    assert!(enter("   ").is_none());
}

#[test]
fn enter_reports_parse_errors() {
    match enter("bogus") {
        Some(Action::SetStatusMessage(m)) => {
            assert_eq!(m, "Error: Command error: Unknown command: 'bogus'")
        },
        other => panic!("unexpected {:?}", other),
    }
    match enter("list nothing") {
        Some(Action::SetStatusMessage(m)) => assert_eq!(m, "Unknown filter 'nothing'. Use: all, todo, done"),
        other => panic!("unexpected {:?}", other),
    }
}

#[test]
fn new_command_reads_its_due_date() {
    let c = Command::New { title: "T".to_string(), description: "D".to_string(), due: Some("2026-05-10".to_string()) };
    match action_for_command(c) {
        Action::NewTask { title, description, due } => {
            assert_eq!(title, "T");
            assert_eq!(description, "D");
            assert_eq!(due, Some(Date { year: 2026, month: 5, day: 10 }));
        },
        other => panic!("unexpected {:?}", other),
    }
    let c = Command::New { title: "T".to_string(), description: String::new(), due: Some(String::new()) };
    assert!(matches!(action_for_command(c), Action::NewTask { due: None, .. }));
    let c = Command::New { title: "T".to_string(), description: String::new(), due: Some("soon".to_string()) };
    match action_for_command(c) {
        Action::SetStatusMessage(m) => assert_eq!(m, "Invalid date 'soon'. Use YYYY-MM-DD"),
        other => panic!("unexpected {:?}", other),
    }
}

#[test]
fn done_and_undone_edit_the_status() {
    match action_for_command(Command::Done("abc".to_string())) {
        Action::EditTask { id, fields } => {
            assert_eq!(id, "abc");
            assert_eq!(fields, vec![("status".to_string(), "done".to_string())]);
        },
        other => panic!("unexpected {:?}", other),
    }
    match action_for_command(Command::Undone("abc".to_string())) {
        Action::EditTask { fields, .. } => {
            assert_eq!(fields, vec![("status".to_string(), "open".to_string())])
        },
        other => panic!("unexpected {:?}", other),
    }
}

#[test]
fn the_bar_says_which_keys_it_can_take() {
    let mut bar = CommandBar::new();
    bar.show_with_text("h\u{e9}");
    assert_eq!(bar.cursor_position, 3);
    assert!(bar.accepts(KeyCode::Char('x')));
    assert!(bar.accepts(KeyCode::Backspace) == false);
    bar.handle_input(&key(KeyCode::Left));
    assert_eq!(bar.cursor_position, 2);
    assert!(!bar.accepts(KeyCode::Char('x')));
    assert!(!bar.accepts(KeyCode::Delete));
    assert!(bar.accepts(KeyCode::Backspace));
    assert!(bar.accepts(KeyCode::Right));
    assert!(bar.accepts(KeyCode::Esc));
}
