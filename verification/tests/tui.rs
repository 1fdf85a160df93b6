use easytodo::action::Action;
use easytodo::config::KeybindingsConfig;
use easytodo::task::model::{Filter, Status, Task, Timestamp};
use easytodo::task::store::new_task;
use easytodo::tui::command_bar::CommandBar;
use easytodo::tui::modal::{status_label, ConfirmAction, ModalContent, ModalState};
use easytodo::tui::task_list::{checkbox, fitted_title, list_heading, row_title, title_room_of, TaskList};
use easytodo::tui::{KeyCode, KeyEvent};

fn key(code: KeyCode) -> KeyEvent {
    KeyEvent { code, ctrl: false }
}

fn ctrl(c: char) -> KeyEvent {
    KeyEvent { code: KeyCode::Char(c), ctrl: true }
}

fn task(id: &str, status: Status) -> Task {
    let mut t = new_task(id.to_string(), id, "", None, Timestamp { secs: 0, nanos: 0 });
    t.status = status;
    t
}

#[test]
fn modal_starts_closed() {
    let m = ModalState::new();
    assert!(!m.is_open());
    assert_eq!(m.help_scroll(), 0);
}

#[test]
fn detail_window_closes_with_escape_or_q() {
    let mut m = ModalState::new();
    m.show_detail(2);
    assert!(matches!(m.modal, Some(ModalContent::TaskDetail(2))));
    assert!(m.handle_input(&key(KeyCode::Char('x'))).is_none());
    assert!(m.is_open());
    assert!(matches!(m.handle_input(&key(KeyCode::Esc)), Some(Action::CloseModal)));
    assert!(!m.is_open());
    m.show_detail(0);
    assert!(matches!(m.handle_input(&key(KeyCode::Char('q'))), Some(Action::CloseModal)));
    assert!(!m.is_open());
}

#[test]
fn confirmation_deletes_on_yes() {
    let mut m = ModalState::new();
    m.show_confirm_delete("abc".to_string(), "Buy milk");
    match &m.modal {
        Some(ModalContent::Confirm { message, action: ConfirmAction::Delete(id) }) => {
            assert_eq!(message, "Delete 'Buy milk'?");
            assert_eq!(id, "abc");
        },
        other => panic!("unexpected {:?}", other),
    }
    assert!(matches!(m.handle_input(&key(KeyCode::Char('Y'))), Some(Action::DeleteTask(id)) if id == "abc"));
    assert!(!m.is_open());
    m.show_confirm_delete("abc".to_string(), "Buy milk");
    assert!(matches!(m.handle_input(&key(KeyCode::Enter)), Some(Action::DeleteTask(_))));
}

#[test]
fn confirmation_cancels_on_no() {
    let mut m = ModalState::new();
    m.show_confirm_delete("abc".to_string(), "T");
    assert!(m.handle_input(&key(KeyCode::Char('x'))).is_none());
    assert!(matches!(m.handle_input(&key(KeyCode::Char('n'))), Some(Action::CloseModal)));
    assert!(!m.is_open());
}

#[test]
fn help_scrolls_within_its_text() {
    let mut m = ModalState::new();
    m.show_help();
    m.fit_help_scroll(3);
    assert_eq!(m.help_max_scroll, 2);
    for _ in 0..5 {
        assert!(m.handle_input(&key(KeyCode::Char('j'))).is_none());
    }
    assert_eq!(m.help_scroll(), 2);
    m.handle_input(&key(KeyCode::Up));
    assert_eq!(m.help_scroll(), 1);
    m.fit_help_scroll(1);
    assert_eq!(m.help_scroll(), 0);
    m.handle_input(&key(KeyCode::Char('k')));
    assert_eq!(m.help_scroll(), 0);
    assert!(matches!(m.handle_input(&key(KeyCode::Esc)), Some(Action::CloseModal)));
    m.show_help();
    assert_eq!(m.help_scroll(), 0);
}

#[test]
fn closed_modal_takes_no_keys() {
    let mut m = ModalState::new();
    assert!(m.handle_input(&key(KeyCode::Esc)).is_none());
    m.show_help();
    m.close();
    assert!(!m.is_open());
}

#[test]
fn default_keys_of_the_list() {
    let l = TaskList::new(KeybindingsConfig::default());
    assert!(matches!(l.handle_input(&key(KeyCode::Char('j'))), Some(Action::MoveDown)));
    assert!(matches!(l.handle_input(&key(KeyCode::Down)), Some(Action::MoveDown)));
    assert!(matches!(l.handle_input(&key(KeyCode::Char('k'))), Some(Action::MoveUp)));
    assert!(matches!(l.handle_input(&key(KeyCode::Up)), Some(Action::MoveUp)));
    assert!(matches!(l.handle_input(&key(KeyCode::Enter)), Some(Action::ToggleDoneSelected)));
    assert!(matches!(l.handle_input(&key(KeyCode::Char(' '))), Some(Action::ToggleDoneSelected)));
    assert!(matches!(l.handle_input(&key(KeyCode::Char('l'))), Some(Action::ShowDetailSelected)));
    assert!(matches!(l.handle_input(&key(KeyCode::Char('o'))), Some(Action::ShowDetailSelected)));
    assert!(matches!(l.handle_input(&key(KeyCode::Char('1'))), Some(Action::SetFilter(Filter::All))));
    assert!(matches!(l.handle_input(&key(KeyCode::Char('2'))), Some(Action::SetFilter(Filter::Todo))));
    assert!(matches!(l.handle_input(&key(KeyCode::Char('3'))), Some(Action::SetFilter(Filter::Done))));
    assert!(matches!(l.handle_input(&ctrl('n')), Some(Action::NewTaskPrefill)));
    assert!(matches!(l.handle_input(&ctrl('e')), Some(Action::EditTaskPrefill)));
    assert!(matches!(l.handle_input(&ctrl('d')), Some(Action::DeleteSelected)));
    assert!(matches!(l.handle_input(&ctrl('b')), Some(Action::OpenConfig)));
    assert!(matches!(l.handle_input(&ctrl('p')), Some(Action::ToggleCommandBar)));
    assert!(matches!(l.handle_input(&ctrl('h')), Some(Action::HelpCommand)));
    assert!(matches!(l.handle_input(&ctrl('r')), Some(Action::Reload)));
    assert!(matches!(l.handle_input(&ctrl('q')), Some(Action::Quit)));
    assert!(l.handle_input(&key(KeyCode::Char('n'))).is_none());
    assert!(l.handle_input(&key(KeyCode::Char('z'))).is_none());
}

#[test]
fn rebound_keys() {
    let mut b = KeybindingsConfig::default();
    b.quit = "x".to_string();
    b.help = "Space".to_string();
    b.reload = "Esc".to_string();
    let mut l = TaskList::new(KeybindingsConfig::default());
    l.update_bindings(b);
    assert!(matches!(l.handle_input(&key(KeyCode::Char('x'))), Some(Action::Quit)));
    assert!(l.handle_input(&ctrl('q')).is_none());
    assert!(matches!(l.handle_input(&key(KeyCode::Esc)), Some(Action::Reload)));
    // Space stays the toggle key, which is checked before the help binding.
    assert!(matches!(l.handle_input(&key(KeyCode::Char(' '))), Some(Action::ToggleDoneSelected)));
}

#[test]
fn selection_is_clamped_to_the_list() {
    let mut l = TaskList::new(KeybindingsConfig::default());
    l.selected_index = 7;
    l.scroll_offset = 3;
    l.clamp_selection(5);
    assert_eq!(l.selected_index, 4);
    assert_eq!(l.scroll_offset, 3);
    l.clamp_selection(10);
    assert_eq!(l.selected_index, 4);
    l.clamp_selection(0);
    assert_eq!(l.selected_index, 0);
    assert_eq!(l.scroll_offset, 0);
}

#[test]
fn window_follows_the_selection() {
    let mut l = TaskList::new(KeybindingsConfig::default());
    l.selected_index = 12;
    l.scroll_offset = 0;
    assert_eq!(l.window_start(10), 3);
    l.scroll_offset = 5;
    assert_eq!(l.window_start(10), 5);
    l.selected_index = 2;
    assert_eq!(l.window_start(10), 2);
}

#[test]
fn heading_counts_done_tasks() {
    let ts = vec![task("a", Status::Done), task("b", Status::Open), task("c", Status::Done)];
    assert_eq!(list_heading(&ts, Filter::All), " EasyTodo  [2/3] [all]");
    assert_eq!(list_heading(&Vec::new(), Filter::Todo), " EasyTodo  [0/0] [todo]");
}

#[test]
fn titles_are_cut_to_the_row() {
    assert_eq!(fitted_title("hello world", 5), "hell\u{2026}");
    assert_eq!(fitted_title("hello", 5), "hello");
    assert_eq!(fitted_title("hello", 0), "\u{2026}");
    assert_eq!(fitted_title("", 0), "");
}

#[test]
fn rows_leave_room_for_checkbox_and_date() {
    assert_eq!(title_room_of(40, true), 23);
    assert_eq!(title_room_of(40, false), 35);
    assert_eq!(title_room_of(10, true), 0);
    assert_eq!(row_title("Buy milk", 20, false), ("Buy milk".to_string(), 7));
    assert_eq!(row_title("Buy milk and bread", 20, true), ("Bu\u{2026}".to_string(), 0));
    assert_eq!(row_title("x", 3, false), ("\u{2026}".to_string(), 0));
    assert_eq!(checkbox(Status::Done), "[x]");
    assert_eq!(checkbox(Status::Open), "[ ]");
}

#[test]
fn windows_are_centred_and_bounded() {
    let mut m = ModalState::new();
    assert_eq!(m.window(80, 24), None);
    m.show_detail(0);
    assert_eq!(m.window(80, 24), Some((10, 4, 60, 16)));
    assert_eq!(m.window(30, 8), Some((0, 0, 40, 10)));
    m.show_confirm_delete("a".to_string(), "T");
    assert_eq!(m.window(50, 20), Some((0, 7, 50, 5)));
    m.show_help();
    assert_eq!(m.window(100, 40), Some((20, 9, 60, 22)));
    assert_eq!(status_label(Status::Done), "Done");
    assert_eq!(status_label(Status::Open), "Open");
}

#[test]
fn bottom_line_shows_the_bar_or_the_message() {
    let mut bar = CommandBar::new();
    assert_eq!(bar.line_text(&None), " ");
    assert_eq!(bar.line_text(&Some("Saved".to_string())), " Saved");
    assert_eq!(bar.cursor_column(3), None);
    bar.show_with_text("list");
    assert_eq!(bar.line_text(&Some("Saved".to_string())), ": list");
    assert_eq!(bar.cursor_column(3), Some(9));
}
