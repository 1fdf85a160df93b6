//! The application's decisions. Each action either settles at once or asks the caller
//! for one piece of outside work (a file, the editor, the settings file); the caller
//! answers with a reply, and the application goes on from where it waited.

use vstd::prelude::*;

use crate::action::{Action, ActionView};
use crate::commands::{opt_view, pairs_view};
use crate::config::{config_set_then_get, split_key, Config, ConfigView, KeybindingsConfigView};
use crate::errors::{error_text, AppError, AppErrorView};
use crate::task::model::{Date, Filter, Status, Task, TaskField, field_named, status_named, status_names_read_back};
use crate::task::store::FsTaskStore;
use crate::text::{append_str, owned, str_eq};
use crate::tui::command_bar::{action_view, bar_step, edit_allowed, hidden_bar, CommandBar, CommandBarView};
use crate::tui::modal::{delete_question, modal_step, ModalContentView, ModalState, ModalView};
use crate::tui::task_list::list_key_action;
use crate::tui::{KeyCode, KeyEvent};
use crate::tui::task_list::TaskList;

verus! {

/// Which part of the interface takes the keys.
#[derive(Debug, Clone, Copy, PartialEq, Eq, Structural)]
pub enum AppMode {
    Normal,
    Command,
    Modal,
}

/// A piece of outside work the application asks for.
#[derive(Debug)]
pub enum Request {
    /// Create and store a new task; answer `Reply::Task`.
    Create { title: String, description: String, due: Option<Date> },
    /// List the stored tasks under a filter; answer `Reply::Tasks`.
    List(Filter),
    /// Read a stored task; answer `Reply::Task`.
    Get(String),
    /// Set a field of a stored task; answer `Reply::Task`.
    Update { id: String, field: TaskField, value: String },
    /// Delete a stored task; answer `Reply::Done`.
    Delete(String),
    /// Copy a stored task; answer `Reply::Task`.
    Clone(String),
    /// Open a task's file in the editor; answer `Reply::Opened` (`true`: in another tab),
    /// or `Reply::Failed` when the data directory cannot be found.
    OpenTask(String),
    /// Open the settings file in the editor; answer `Reply::Opened`, or `Reply::Failed`
    /// when the settings file cannot be found.
    OpenConfigFile,
    /// Read the settings file; answer `Reply::Config`.
    LoadConfig,
    /// Write the settings; answer `Reply::Done`.
    SaveConfig,
    /// Read the `EDITOR` variable; answer `Reply::Variable`.
    ReadEditorVariable,
    /// Move the task files to the directory typed; answer `Reply::Migrated` with the new
    /// setting of the data directory, or `Reply::NoHome`.
    Migrate(String),
}

/// The answer to a request.
#[derive(Debug)]
pub enum Reply {
    Task(Result<Task, AppError>),
    Tasks(Result<Vec<Task>, AppError>),
    Done(Result<(), AppError>),
    Opened(Result<bool, AppError>),
    Config(Result<Config, AppError>),
    Variable(Option<String>),
    Migrated(Result<String, AppError>),
    NoHome,
    Failed(AppError),
}

/// What the application waits for.
#[derive(Debug)]
pub enum Pending {
    Nothing,
    Created,
    OpenGet,
    OpenEditor { title: String },
    Edit { id: String, fields: Vec<(String, String)>, next: usize, updated: bool },
    Deleted,
    ConfirmGet { id: String },
    Toggled,
    Cloned,
    /// The task list; on success show `done` if there is one; on failure show
    /// `failure` and the error, or with no `failure` stop with the error.
    Refresh { done: Option<String>, failure: Option<String> },
    ConfigEditor,
    ConfigLoad,
    EditorVariable { key: String },
    ConfigSaved { key: String, value: String },
    Migrated,
    MigrateSaved,
    Reloaded,
}

/// What the application does next: ask for outside work, or finish the action.
#[derive(Debug)]
pub enum Step {
    Request(Request),
    Finished(Result<(), AppError>),
}

/// The application's state.
pub struct App {
    pub mode: AppMode,
    pub store: FsTaskStore,
    pub config: Config,
    pub tasks: Vec<Task>,
    pub filter: Filter,
    pub task_list: TaskList,
    pub command_bar: CommandBar,
    pub modal: ModalState,
    pub status_message: Option<String>,
    /// Counts the status messages set, so that the caller can time each one.
    pub message_serial: u64,
    pub should_quit: bool,
    pub pending: Pending,
}

/// A request with its text as characters.
pub enum RequestView {
    Create { title: Seq<char>, description: Seq<char>, due: Option<Date> },
    List(Filter),
    Get(Seq<char>),
    Update { id: Seq<char>, field: TaskField, value: Seq<char> },
    Delete(Seq<char>),
    Clone(Seq<char>),
    OpenTask(Seq<char>),
    OpenConfigFile,
    LoadConfig,
    SaveConfig,
    ReadEditorVariable,
    Migrate(Seq<char>),
}

impl View for Request {
    type V = RequestView;

    open spec fn view(&self) -> RequestView {
        match self {
            Request::Create { title, description, due } => RequestView::Create {
                title: title@,
                description: description@,
                due: *due,
            },
            Request::List(f) => RequestView::List(*f),
            Request::Get(id) => RequestView::Get(id@),
            Request::Update { id, field, value } => RequestView::Update {
                id: id@,
                field: *field,
                value: value@,
            },
            Request::Delete(id) => RequestView::Delete(id@),
            Request::Clone(id) => RequestView::Clone(id@),
            Request::OpenTask(id) => RequestView::OpenTask(id@),
            Request::OpenConfigFile => RequestView::OpenConfigFile,
            Request::LoadConfig => RequestView::LoadConfig,
            Request::SaveConfig => RequestView::SaveConfig,
            Request::ReadEditorVariable => RequestView::ReadEditorVariable,
            Request::Migrate(p) => RequestView::Migrate(p@),
        }
    }
}

/// A step with its text as characters.
pub enum StepView {
    Request(RequestView),
    Finished(Result<(), AppErrorView>),
}

impl View for Step {
    type V = StepView;

    open spec fn view(&self) -> StepView {
        match self {
            Step::Request(r) => StepView::Request(r@),
            Step::Finished(Ok(_)) => StepView::Finished(Ok(())),
            Step::Finished(Err(e)) => StepView::Finished(Err(e@)),
        }
    }
}

/// What the application waits for, with its text as characters.
pub enum PendingView {
    Nothing,
    Created,
    OpenGet,
    OpenEditor { title: Seq<char> },
    Edit { id: Seq<char>, fields: Seq<(Seq<char>, Seq<char>)>, next: usize, updated: bool },
    Deleted,
    ConfirmGet { id: Seq<char> },
    Toggled,
    Cloned,
    Refresh { done: Option<Seq<char>>, failure: Option<Seq<char>> },
    ConfigEditor,
    ConfigLoad,
    EditorVariable { key: Seq<char> },
    ConfigSaved { key: Seq<char>, value: Seq<char> },
    Migrated,
    MigrateSaved,
    Reloaded,
}

impl View for Pending {
    type V = PendingView;

    open spec fn view(&self) -> PendingView {
        match self {
            Pending::Nothing => PendingView::Nothing,
            Pending::Created => PendingView::Created,
            Pending::OpenGet => PendingView::OpenGet,
            Pending::OpenEditor { title } => PendingView::OpenEditor { title: title@ },
            Pending::Edit { id, fields, next, updated } => PendingView::Edit {
                id: id@,
                fields: pairs_view(fields@),
                next: *next,
                updated: *updated,
            },
            Pending::Deleted => PendingView::Deleted,
            Pending::ConfirmGet { id } => PendingView::ConfirmGet { id: id@ },
            Pending::Toggled => PendingView::Toggled,
            Pending::Cloned => PendingView::Cloned,
            Pending::Refresh { done, failure } => PendingView::Refresh {
                done: opt_view(*done),
                failure: opt_view(*failure),
            },
            Pending::ConfigEditor => PendingView::ConfigEditor,
            Pending::ConfigLoad => PendingView::ConfigLoad,
            Pending::EditorVariable { key } => PendingView::EditorVariable { key: key@ },
            Pending::ConfigSaved { key, value } => PendingView::ConfigSaved { key: key@, value: value@ },
            Pending::Migrated => PendingView::Migrated,
            Pending::MigrateSaved => PendingView::MigrateSaved,
            Pending::Reloaded => PendingView::Reloaded,
        }
    }
}

/// The application's state as a value.
pub struct AppView {
    pub mode: AppMode,
    pub dir: Seq<char>,
    pub config: ConfigView,
    pub tasks: Seq<Task>,
    pub filter: Filter,
    pub selected: usize,
    pub scroll: usize,
    pub bindings: KeybindingsConfigView,
    pub bar: CommandBarView,
    pub modal: ModalView,
    pub message: Option<Seq<char>>,
    pub serial: u64,
    pub quit: bool,
    pub pending: PendingView,
}

impl View for App {
    type V = AppView;

    open spec fn view(&self) -> AppView {
        AppView {
            mode: self.mode,
            dir: self.store.dir(),
            config: self.config@,
            tasks: self.tasks@,
            filter: self.filter,
            selected: self.task_list.selected_index,
            scroll: self.task_list.scroll_offset,
            bindings: self.task_list.bindings@,
            bar: self.command_bar@,
            modal: self.modal@,
            message: opt_view(self.status_message),
            serial: self.message_serial,
            quit: self.should_quit,
            pending: self.pending@,
        }
    }
}

/// The status message a step leaves: the old one, a text, or a prefix and an error's text.
pub enum Note {
    Keep,
    Text(Seq<char>),
    Error(Seq<char>, AppErrorView),
}

/// The next count of status messages.
pub open spec fn bump(n: u64) -> u64 {
    if n == u64::MAX {
        0
    } else {
        (n + 1) as u64
    }
}

/// Whether `after` shows the status message that `note` asks for, `before` being the state
/// the step started from. The text of an I/O or YAML error is not the library's; for those
/// only the prefix is known.
pub open spec fn noted(before: AppView, after: AppView, note: Note) -> bool {
    match note {
        Note::Keep => after.message == before.message && after.serial == before.serial,
        Note::Text(t) => after.message == Some(t) && after.serial == bump(before.serial),
        Note::Error(p, e) => {
            &&& after.message is Some
            &&& after.message->0.len() >= p.len()
            &&& after.message->0.subrange(0, p.len() as int) == p
            &&& (error_text(e) matches Some(t) ==> after.message->0 == p + t)
            &&& after.serial == bump(before.serial)
        },
    }
}

/// A step of the application: the state after it (with the old status message), the
/// status message it leaves, and what it does next.
pub struct Outcome {
    pub next: AppView,
    pub note: Note,
    pub step: StepView,
}

pub open spec fn finished() -> StepView {
    StepView::Finished(Ok(()))
}

pub open spec fn outcome(next: AppView, note: Note, step: StepView) -> Outcome {
    Outcome { next, note, step }
}

/// Whether the application went from `before` to `after` as `o` says.
pub open spec fn follows(before: AppView, after: AppView, o: Outcome) -> bool {
    &&& after == AppView { message: after.message, serial: after.serial, ..o.next }
    &&& noted(before, after, o.note)
}

/// The id that `raw` stands for: `.` is the selected task.
pub open spec fn resolved_id(a: AppView, raw: Seq<char>) -> Result<Seq<char>, AppErrorView> {
    if raw == seq!['.'] {
        if a.selected < a.tasks.len() {
            Ok(a.tasks[a.selected as int].id@)
        } else {
            Err(AppErrorView::CommandError("No task selected"@))
        }
    } else {
        Ok(raw)
    }
}

/// The state waiting for nothing.
pub open spec fn idle(a: AppView) -> AppView {
    AppView { pending: PendingView::Nothing, ..a }
}

/// Asking for the task list, to show `done` after it, or `failure` and the error.
pub open spec fn refresh(a: AppView, done: Option<Seq<char>>, failure: Option<Seq<char>>) -> Outcome {
    outcome(
        AppView { pending: PendingView::Refresh { done, failure }, ..a },
        Note::Keep,
        StepView::Request(RequestView::List(a.filter)),
    )
}

/// Going on with the fields of an edit from field `next`.
pub open spec fn edit_from(
    a: AppView,
    id: Seq<char>,
    fields: Seq<(Seq<char>, Seq<char>)>,
    next: int,
    updated: bool,
) -> Outcome {
    if 0 <= next < fields.len() {
        match field_named(fields[next].0) {
            None => outcome(
                idle(a),
                Note::Text(
                    "Unknown field '"@ + fields[next].0 + "'. Valid: title, description, due, status"@,
                ),
                finished(),
            ),
            Some(f) => outcome(
                AppView {
                    pending: PendingView::Edit { id, fields, next: (next + 1) as usize, updated },
                    ..a
                },
                Note::Keep,
                StepView::Request(RequestView::Update { id, field: f, value: fields[next].1 }),
            ),
        }
    } else if updated {
        refresh(a, Some("Task updated"@), None)
    } else {
        outcome(idle(a), Note::Keep, finished())
    }
}

/// Showing the modal window with `content` and handing it the keys.
pub open spec fn with_modal(a: AppView, content: ModalContentView) -> AppView {
    AppView { mode: AppMode::Modal, modal: ModalView { content: Some(content), ..a.modal }, ..a }
}

/// The command bar shown holding `text`.
pub open spec fn bar_with(text: Seq<char>) -> CommandBarView {
    CommandBarView { visible: true, input: text, cursor: (crate::text::utf8_len(text) % 65536) as u16 }
}

/// What the application does with `action`, starting from `a`.
pub open spec fn begin_spec(a0: AppView, action: ActionView) -> Outcome {
    let a = idle(a0);
    match action {
        ActionView::MoveUp => outcome(
            AppView {
                selected: if a.selected > 0 {
                    (a.selected - 1) as usize
                } else {
                    0
                },
                ..a
            },
            Note::Keep,
            finished(),
        ),
        ActionView::MoveDown => outcome(
            AppView {
                selected: if a.selected + 1 < a.tasks.len() {
                    (a.selected + 1) as usize
                } else {
                    a.selected
                },
                ..a
            },
            Note::Keep,
            finished(),
        ),
        ActionView::NewTask { title, description, due } => outcome(
            AppView { pending: PendingView::Created, ..a },
            Note::Keep,
            StepView::Request(RequestView::Create { title, description, due }),
        ),
        ActionView::NewTaskPrefill => outcome(
            AppView { mode: AppMode::Command, bar: bar_with("new "@), ..a },
            Note::Keep,
            finished(),
        ),
        ActionView::EditTaskPrefill => outcome(
            AppView { mode: AppMode::Command, bar: bar_with("edit . "@), ..a },
            Note::Keep,
            finished(),
        ),
        ActionView::OpenTaskExternal(raw) => match resolved_id(a, raw) {
            Err(e) => outcome(a, Note::Error(Seq::<char>::empty(), e), finished()),
            Ok(id) => outcome(
                AppView { pending: PendingView::OpenGet, ..a },
                Note::Keep,
                StepView::Request(RequestView::Get(id)),
            ),
        },
        ActionView::EditTask { id: raw, fields } => match resolved_id(a, raw) {
            Err(e) => outcome(a, Note::Error(Seq::<char>::empty(), e), finished()),
            Ok(id) => edit_from(a, id, fields, 0, false),
        },
        ActionView::DeleteTask(id) => outcome(
            AppView { pending: PendingView::Deleted, ..a },
            Note::Keep,
            StepView::Request(RequestView::Delete(id)),
        ),
        ActionView::ShowConfirmDelete(raw) => match resolved_id(a, raw) {
            Err(e) => outcome(a, Note::Error(Seq::<char>::empty(), e), finished()),
            Ok(id) => outcome(
                AppView { pending: PendingView::ConfirmGet { id }, ..a },
                Note::Keep,
                StepView::Request(RequestView::Get(id)),
            ),
        },
        ActionView::ToggleDoneSelected => if a.selected < a.tasks.len() {
            let t = a.tasks[a.selected as int];
            outcome(
                AppView { pending: PendingView::Toggled, ..a },
                Note::Keep,
                StepView::Request(
                    RequestView::Update {
                        id: t.id@,
                        field: TaskField::Status,
                        value: if t.status == Status::Done {
                            "open"@
                        } else {
                            "done"@
                        },
                    },
                ),
            )
        } else {
            outcome(a, Note::Keep, finished())
        },
        ActionView::ShowDetailSelected => if a.selected < a.tasks.len() {
            outcome(with_modal(a, ModalContentView::TaskDetail(a.selected)), Note::Keep, finished())
        } else {
            outcome(a, Note::Keep, finished())
        },
        ActionView::DeleteSelected => if a.selected < a.tasks.len() {
            let t = a.tasks[a.selected as int];
            outcome(
                with_modal(
                    a,
                    ModalContentView::ConfirmDelete { message: delete_question(t.title@), id: t.id@ },
                ),
                Note::Keep,
                finished(),
            )
        } else {
            outcome(a, Note::Keep, finished())
        },
        ActionView::CloneTask(raw) => match resolved_id(a, raw) {
            Err(e) => outcome(a, Note::Error(Seq::<char>::empty(), e), finished()),
            Ok(id) => outcome(
                AppView { pending: PendingView::Cloned, ..a },
                Note::Keep,
                StepView::Request(RequestView::Clone(id)),
            ),
        },
        ActionView::SetFilter(f) => refresh(AppView { filter: f, ..a }, None, Some(Seq::<char>::empty())),
        ActionView::ShowDetail(i) => if i < a.tasks.len() {
            outcome(with_modal(a, ModalContentView::TaskDetail(i)), Note::Keep, finished())
        } else {
            outcome(a, Note::Keep, finished())
        },
        ActionView::CloseModal => outcome(
            AppView { mode: AppMode::Normal, modal: ModalView { content: None, ..a.modal }, ..a },
            Note::Keep,
            finished(),
        ),
        ActionView::ToggleCommandBar => if a.bar.visible {
            outcome(AppView { mode: AppMode::Normal, bar: hidden_bar(), ..a }, Note::Keep, finished())
        } else {
            outcome(
                AppView {
                    mode: AppMode::Command,
                    bar: CommandBarView { visible: true, input: Seq::<char>::empty(), cursor: 0 },
                    ..a
                },
                Note::Keep,
                finished(),
            )
        },
        ActionView::OpenConfig => outcome(
            AppView { pending: PendingView::ConfigEditor, ..a },
            Note::Keep,
            StepView::Request(RequestView::OpenConfigFile),
        ),
        ActionView::ConfigAction { key, value } => match (key, value) {
            (None, None) => outcome(
                AppView { pending: PendingView::ConfigEditor, ..a },
                Note::Keep,
                StepView::Request(RequestView::OpenConfigFile),
            ),
            (Some(k), None) => outcome(
                AppView { pending: PendingView::EditorVariable { key: k }, ..a },
                Note::Keep,
                StepView::Request(RequestView::ReadEditorVariable),
            ),
            (Some(k), Some(v)) => match a.config.set_spec(k, v) {
                Ok(c) => outcome(
                    AppView { config: c, pending: PendingView::ConfigSaved { key: k, value: v }, ..a },
                    Note::Keep,
                    StepView::Request(RequestView::SaveConfig),
                ),
                Err(e) => outcome(a, Note::Error(Seq::<char>::empty(), e), finished()),
            },
            (None, Some(_)) => outcome(a, Note::Text("Cannot set a value without a key"@), finished()),
        },
        ActionView::MigrateData(p) => outcome(
            AppView { pending: PendingView::Migrated, ..a },
            Note::Keep,
            StepView::Request(RequestView::Migrate(p)),
        ),
        ActionView::Reload => outcome(
            AppView { pending: PendingView::Reloaded, ..a },
            Note::Keep,
            StepView::Request(RequestView::LoadConfig),
        ),
        ActionView::SetStatusMessage(m) => outcome(a, Note::Text(m), finished()),
        ActionView::HelpCommand => outcome(
            AppView {
                mode: AppMode::Modal,
                modal: ModalView { content: Some(ModalContentView::Help), scroll: 0, max_scroll: 0 },
                ..a
            },
            Note::Keep,
            finished(),
        ),
        ActionView::Quit => outcome(AppView { quit: true, ..a }, Note::Keep, finished()),
    }
}

/// The task list and selection once the listed tasks `ts` have come.
pub open spec fn with_tasks(a: AppView, ts: Seq<Task>) -> AppView {
    AppView {
        tasks: ts,
        selected: if ts.len() == 0 {
            0
        } else if a.selected < ts.len() {
            a.selected
        } else {
            (ts.len() - 1) as usize
        },
        scroll: if ts.len() == 0 {
            0
        } else {
            a.scroll
        },
        pending: PendingView::Nothing,
        ..a
    }
}

/// What the application does with `reply`, in the state `a` that waited for it. A reply
/// of another kind than the one waited for ends the wait with nothing done.
pub open spec fn resume_spec(a: AppView, reply: Reply) -> Outcome {
    let a0 = idle(a);
    let none = Seq::<char>::empty();
    match (a.pending, reply) {
        (PendingView::Created, Reply::Task(Ok(t))) => refresh(
            a,
            Some("Task '"@ + t.title@ + "' created (id: "@ + t.id@ + ")"@),
            None,
        ),
        (PendingView::Created, Reply::Task(Err(e))) => outcome(
            a0,
            Note::Keep,
            StepView::Finished(Err(e@)),
        ),
        (PendingView::OpenGet, Reply::Task(Ok(t))) => outcome(
            AppView { pending: PendingView::OpenEditor { title: t.title@ }, ..a },
            Note::Keep,
            StepView::Request(RequestView::OpenTask(t.id@)),
        ),
        (PendingView::OpenGet, Reply::Task(Err(e))) => outcome(a0, Note::Error(none, e@), finished()),
        (PendingView::OpenEditor { title }, Reply::Opened(Ok(true))) => outcome(
            a0,
            Note::Text("Task '"@ + title + "' opened in editor tab"@),
            finished(),
        ),
        (PendingView::OpenEditor { title }, Reply::Opened(Ok(false))) => refresh(
            a,
            Some("Task '"@ + title + "' updated"@),
            None,
        ),
        (PendingView::OpenEditor { .. }, Reply::Opened(Err(e))) => outcome(
            a0,
            Note::Error("Editor error: "@, e@),
            finished(),
        ),
        (PendingView::OpenEditor { .. }, Reply::Failed(e)) => outcome(
            a0,
            Note::Keep,
            StepView::Finished(Err(e@)),
        ),
        (PendingView::Edit { id, fields, next, updated }, Reply::Task(Ok(_))) => edit_from(
            a,
            id,
            fields,
            next as int,
            true,
        ),
        (PendingView::Edit { .. }, Reply::Task(Err(e))) => outcome(a0, Note::Error(none, e@), finished()),
        (PendingView::Deleted, Reply::Done(Ok(_))) => refresh(a, Some("Task deleted"@), None),
        (PendingView::Deleted, Reply::Done(Err(e))) => outcome(a0, Note::Error(none, e@), finished()),
        (PendingView::ConfirmGet { id }, Reply::Task(Ok(t))) => outcome(
            with_modal(a0, ModalContentView::ConfirmDelete { message: delete_question(t.title@), id }),
            Note::Keep,
            finished(),
        ),
        (PendingView::ConfirmGet { .. }, Reply::Task(Err(e))) => outcome(
            a0,
            Note::Error(none, e@),
            finished(),
        ),
        (PendingView::Toggled, Reply::Task(Ok(_))) => refresh(a, None, None),
        (PendingView::Toggled, Reply::Task(Err(_))) => outcome(a0, Note::Keep, finished()),
        (PendingView::Cloned, Reply::Task(Ok(c))) => refresh(
            a,
            Some("Task cloned as '"@ + c.title@ + "' (id: "@ + c.id@ + ")"@),
            None,
        ),
        (PendingView::Cloned, Reply::Task(Err(e))) => outcome(a0, Note::Error(none, e@), finished()),
        (PendingView::Refresh { done, failure }, Reply::Tasks(Ok(ts))) => outcome(
            with_tasks(a, ts@),
            match done {
                Some(m) => Note::Text(m),
                None => Note::Keep,
            },
            finished(),
        ),
        (PendingView::Refresh { done, failure }, Reply::Tasks(Err(e))) => match failure {
            Some(p) => outcome(a0, Note::Error(p, e@), finished()),
            None => outcome(a0, Note::Keep, StepView::Finished(Err(e@))),
        },
        (PendingView::ConfigEditor, Reply::Failed(e)) => outcome(a0, Note::Error(none, e@), finished()),
        (PendingView::ConfigEditor, Reply::Opened(Ok(true))) => outcome(
            a0,
            Note::Text("Config opened in editor tab"@),
            finished(),
        ),
        (PendingView::ConfigEditor, Reply::Opened(Ok(false))) => outcome(
            AppView { pending: PendingView::ConfigLoad, ..a },
            Note::Keep,
            StepView::Request(RequestView::LoadConfig),
        ),
        (PendingView::ConfigEditor, Reply::Opened(Err(e))) => outcome(
            a0,
            Note::Error("Editor error: "@, e@),
            finished(),
        ),
        (PendingView::ConfigLoad, Reply::Config(Ok(c))) => outcome(
            AppView { config: c@, ..a0 },
            Note::Text("Config updated"@),
            finished(),
        ),
        (PendingView::ConfigLoad, Reply::Config(Err(e))) => outcome(
            a0,
            Note::Error("Config reload error: "@, e@),
            finished(),
        ),
        (PendingView::EditorVariable { key }, Reply::Variable(env)) => outcome(
            a0,
            match a.config.get_spec(key, opt_view(env)) {
                Some(v) => Note::Text(key + " = "@ + v),
                None => Note::Text("Unknown key: "@ + key),
            },
            finished(),
        ),
        (PendingView::ConfigSaved { key, value }, Reply::Done(Ok(_))) => outcome(
            a0,
            Note::Text(key + " set to "@ + value),
            finished(),
        ),
        (PendingView::ConfigSaved { .. }, Reply::Done(Err(e))) => outcome(
            a0,
            Note::Error(none, e@),
            finished(),
        ),
        (PendingView::Migrated, Reply::Migrated(Ok(d))) => outcome(
            AppView {
                config: ConfigView { data_dir: d@, ..a.config },
                pending: PendingView::MigrateSaved,
                ..a
            },
            Note::Keep,
            StepView::Request(RequestView::SaveConfig),
        ),
        (PendingView::Migrated, Reply::Migrated(Err(e))) => outcome(
            a0,
            Note::Error("Migration error: "@, e@),
            finished(),
        ),
        (PendingView::Migrated, Reply::NoHome) => outcome(
            a0,
            Note::Text("Could not resolve home directory"@),
            finished(),
        ),
        (PendingView::MigrateSaved, Reply::Done(Ok(_))) => refresh(
            a,
            Some("Data migrated"@),
            Some("Data migrated but reload failed: "@),
        ),
        (PendingView::MigrateSaved, Reply::Done(Err(e))) => outcome(
            a0,
            Note::Error("Config save error: "@, e@),
            finished(),
        ),
        (PendingView::Reloaded, Reply::Config(Ok(c))) => refresh(
            AppView { config: c@, ..a },
            Some("Reloaded"@),
            Some("Reload error: "@),
        ),
        (PendingView::Reloaded, Reply::Config(Err(_))) => refresh(
            a,
            Some("Reloaded"@),
            Some("Reload error: "@),
        ),
        _ => outcome(a0, Note::Keep, finished()),
    }
}

impl App {
    /// The application over `store` with the settings `config`: the normal mode, no tasks
    /// listed yet, everything closed.
    pub fn new(store: FsTaskStore, config: Config) -> (app: App)
        ensures
            app@ == (AppView {
                mode: AppMode::Normal,
                dir: store.dir(),
                config: config@,
                tasks: Seq::<Task>::empty(),
                filter: Filter::All,
                selected: 0,
                scroll: 0,
                bindings: config@.keybindings,
                bar: hidden_bar(),
                modal: ModalView { content: None, scroll: 0, max_scroll: 0 },
                message: None,
                serial: 0,
                quit: false,
                pending: PendingView::Nothing,
            }),
    {
        let bindings = config.keybindings.duplicate();
        App {
            mode: AppMode::Normal,
            store,
            config,
            tasks: Vec::new(),
            filter: Filter::All,
            task_list: TaskList::new(bindings),
            command_bar: CommandBar::new(),
            modal: ModalState::new(),
            status_message: None,
            message_serial: 0,
            should_quit: false,
            pending: Pending::Nothing,
        }
    }

    /// Shows `msg` in the status bar.
    pub fn set_status_message(&mut self, msg: String)
        ensures
            final(self)@ == (AppView { message: Some(msg@), serial: bump(old(self)@.serial), ..old(self)@ }),
    {
        self.status_message = Some(msg);
        self.message_serial = if self.message_serial == u64::MAX {
            0
        } else {
            self.message_serial + 1
        };
    }

    /// Shows `prefix` and the text of `e` in the status bar.
    fn note_error(&mut self, prefix: &str, e: AppError)
        ensures
            follows(old(self)@, final(self)@, outcome(old(self)@, Note::Error(prefix@, e@), finished())),
    {
        let mut m = owned(prefix);
        let ghost before = m@;
        let text = e.to_string();
        append_str(&mut m, text.as_str());
        proof {
            assert(m@.subrange(0, prefix@.len() as int) =~= prefix@);
        }
        self.set_status_message(m);
    }

    /// Clears the status message once it has shown for three seconds, unless the command
    /// bar is open; `elapsed_secs` is how long it has shown, if one was set.
    pub fn clear_expired_message(&mut self, elapsed_secs: Option<u64>)
        ensures
            final(self)@ == (if elapsed_secs matches Some(t) && !old(self)@.bar.visible && t >= 3 {
                AppView { message: None, ..old(self)@ }
            } else {
                old(self)@
            }),
    {
        if let Some(t) = elapsed_secs {
            if !self.command_bar.visible && t >= 3 {
                self.status_message = None;
            }
        }
    }

    /// The id that `id` stands for: `.` is the selected task.
    pub fn resolve_id(&self, id: &str) -> (r: Result<String, AppError>)
        ensures
            match r {
                Ok(s) => resolved_id(self@, id@) == Ok::<Seq<char>, AppErrorView>(s@),
                Err(e) => resolved_id(self@, id@) == Err::<Seq<char>, AppErrorView>(e@),
            },
    {
        proof {
            reveal_strlit(".");
            assert("."@ =~= seq!['.']);
        }
        if str_eq(id, ".") {
            let i = self.task_list.selected_index;
            if i < self.tasks.len() {
                Ok(self.tasks[i].id.clone())
            } else {
                Err(AppError::CommandError(owned("No task selected")))
            }
        } else {
            Ok(owned(id))
        }
    }

    /// Takes the listed tasks and keeps the selection on one of them.
    pub fn refresh_tasks(&mut self, tasks: Vec<Task>)
        ensures
            final(self)@ == (AppView { pending: old(self)@.pending, ..with_tasks(old(self)@, tasks@) }),
    {
        let n = tasks.len();
        self.tasks = tasks;
        self.task_list.clamp_selection(n);
    }

    /// A settings file opened in another window has changed: takes the settings read
    /// from it, when they read, and says so.
    pub fn settings_file_changed(&mut self, config: Result<Config, AppError>)
        ensures
            final(self)@ == (AppView {
                config: match config {
                    Ok(c) => c@,
                    Err(_) => old(self)@.config,
                },
                message: Some("Config reloaded"@),
                serial: bump(old(self)@.serial),
                ..old(self)@
            }),
    {
        if let Ok(c) = config {
            self.config = c;
        }
        self.set_status_message(owned("Config reloaded"));
    }

    /// A task file opened in another window has changed: takes the tasks listed again,
    /// when they listed, and says so.
    pub fn task_file_changed(&mut self, tasks: Result<Vec<Task>, AppError>)
        ensures
            final(self)@ == (AppView {
                message: Some("Task file changed, list refreshed"@),
                serial: bump(old(self)@.serial),
                ..match tasks {
                    Ok(ts) => AppView { pending: old(self)@.pending, ..with_tasks(old(self)@, ts@) },
                    Err(_) => old(self)@,
                }
            }),
    {
        if let Ok(ts) = tasks {
            self.refresh_tasks(ts);
        }
        self.set_status_message(owned("Task file changed, list refreshed"));
    }

    /// Asks for the task list, to show `done` after it, or `failure` and the error.
    fn ask_refresh(&mut self, done: Option<String>, failure: Option<String>) -> (s: Step)
        ensures
            follows(old(self)@, final(self)@, refresh(old(self)@, opt_view(done), opt_view(failure))),
            s@ == refresh(old(self)@, opt_view(done), opt_view(failure)).step,
    {
        self.pending = Pending::Refresh { done, failure };
        Step::Request(Request::List(self.filter))
    }

    /// Goes on with the fields of an edit from field `next`.
    fn edit_step(&mut self, id: String, fields: Vec<(String, String)>, next: usize, updated: bool) -> (s: Step)
        requires
            old(self)@.pending is Nothing,
        ensures
            follows(old(self)@, final(self)@, edit_from(old(self)@, id@, pairs_view(fields@), next as int, updated)),
            s@ == edit_from(old(self)@, id@, pairs_view(fields@), next as int, updated).step,
    {
        if next < fields.len() {
            let name = fields[next].0.clone();
            let value = fields[next].1.clone();
            proof {
                assert(pairs_view(fields@)[next as int] == (fields@[next as int].0@, fields@[next as int].1@));
            }
            match TaskField::from_str(name.as_str()) {
                None => {
                    let mut m = owned("Unknown field '");
                    append_str(&mut m, name.as_str());
                    append_str(&mut m, "'. Valid: title, description, due, status");
                    self.set_status_message(m);
                    Step::Finished(Ok(()))
                },
                Some(f) => {
                    let request_id = id.clone();
                    self.pending = Pending::Edit { id, fields, next: next + 1, updated };
                    Step::Request(Request::Update { id: request_id, field: f, value })
                },
            }
        } else if updated {
            self.ask_refresh(Some(owned("Task updated")), None)
        } else {
            Step::Finished(Ok(()))
        }
    }

    /// Starts on `action`: settles it, or asks for the first piece of outside work.
    #[verifier::spinoff_prover]
    #[verifier::rlimit(60)]
    pub fn handle_action(&mut self, action: Action) -> (s: Step)
        requires
            action is MoveDown ==> old(self)@.selected < usize::MAX,
        ensures
            follows(old(self)@, final(self)@, begin_spec(old(self)@, action@)),
            s@ == begin_spec(old(self)@, action@).step,
    {
        proof {
            reveal_strlit("");
            assert(""@ =~= Seq::<char>::empty());
        }
        self.pending = Pending::Nothing;
        match action {
            Action::MoveUp => {
                if self.task_list.selected_index > 0 {
                    self.task_list.selected_index = self.task_list.selected_index - 1;
                }
                Step::Finished(Ok(()))
            },
            Action::MoveDown => {
                if self.task_list.selected_index + 1 < self.tasks.len() {
                    self.task_list.selected_index = self.task_list.selected_index + 1;
                }
                Step::Finished(Ok(()))
            },
            Action::NewTask { title, description, due } => {
                self.pending = Pending::Created;
                Step::Request(Request::Create { title, description, due })
            },
            Action::NewTaskPrefill => {
                self.mode = AppMode::Command;
                self.command_bar.show_with_text("new ");
                Step::Finished(Ok(()))
            },
            Action::EditTaskPrefill => {
                self.mode = AppMode::Command;
                self.command_bar.show_with_text("edit . ");
                Step::Finished(Ok(()))
            },
            Action::OpenTaskExternal(raw) => match self.resolve_id(raw.as_str()) {
                Err(e) => {
                    self.note_error("", e);
                    Step::Finished(Ok(()))
                },
                Ok(id) => {
                    self.pending = Pending::OpenGet;
                    Step::Request(Request::Get(id))
                },
            },
            Action::EditTask { id: raw, fields } => match self.resolve_id(raw.as_str()) {
                Err(e) => {
                    self.note_error("", e);
                    Step::Finished(Ok(()))
                },
                Ok(id) => self.edit_step(id, fields, 0, false),
            },
            Action::DeleteTask(id) => {
                self.pending = Pending::Deleted;
                Step::Request(Request::Delete(id))
            },
            Action::ShowConfirmDelete(raw) => match self.resolve_id(raw.as_str()) {
                Err(e) => {
                    self.note_error("", e);
                    Step::Finished(Ok(()))
                },
                Ok(id) => {
                    let request_id = id.clone();
                    self.pending = Pending::ConfirmGet { id };
                    Step::Request(Request::Get(request_id))
                },
            },
            Action::ToggleDoneSelected => {
                let i = self.task_list.selected_index;
                if i < self.tasks.len() {
                    let id = self.tasks[i].id.clone();
                    let value = if self.tasks[i].status == Status::Done {
                        owned("open")
                    } else {
                        owned("done")
                    };
                    self.pending = Pending::Toggled;
                    Step::Request(Request::Update { id, field: TaskField::Status, value })
                } else {
                    Step::Finished(Ok(()))
                }
            },
            Action::ShowDetailSelected => {
                let i = self.task_list.selected_index;
                if i < self.tasks.len() {
                    self.mode = AppMode::Modal;
                    self.modal.show_detail(i);
                }
                Step::Finished(Ok(()))
            },
            Action::DeleteSelected => {
                let i = self.task_list.selected_index;
                if i < self.tasks.len() {
                    let id = self.tasks[i].id.clone();
                    let title = self.tasks[i].title.clone();
                    self.mode = AppMode::Modal;
                    self.modal.show_confirm_delete(id, title.as_str());
                }
                Step::Finished(Ok(()))
            },
            Action::CloneTask(raw) => match self.resolve_id(raw.as_str()) {
                Err(e) => {
                    self.note_error("", e);
                    Step::Finished(Ok(()))
                },
                Ok(id) => {
                    self.pending = Pending::Cloned;
                    Step::Request(Request::Clone(id))
                },
            },
            Action::SetFilter(f) => {
                self.filter = f;
                self.ask_refresh(None, Some(String::new()))
            },
            Action::ShowDetail(i) => {
                if i < self.tasks.len() {
                    self.mode = AppMode::Modal;
                    self.modal.show_detail(i);
                }
                Step::Finished(Ok(()))
            },
            Action::CloseModal => {
                self.modal.close();
                self.mode = AppMode::Normal;
                Step::Finished(Ok(()))
            },
            Action::ToggleCommandBar => {
                if self.command_bar.visible {
                    self.command_bar.hide_bar();
                    self.mode = AppMode::Normal;
                } else {
                    self.command_bar.show();
                    self.mode = AppMode::Command;
                }
                Step::Finished(Ok(()))
            },
            Action::OpenConfig => {
                self.pending = Pending::ConfigEditor;
                Step::Request(Request::OpenConfigFile)
            },
            Action::ConfigAction { key, value } => match (key, value) {
                (None, None) => {
                    self.pending = Pending::ConfigEditor;
                    Step::Request(Request::OpenConfigFile)
                },
                (Some(k), None) => {
                    self.pending = Pending::EditorVariable { key: k };
                    Step::Request(Request::ReadEditorVariable)
                },
                (Some(k), Some(v)) => match self.config.set(k.as_str(), v.as_str()) {
                    Ok(_) => {
                        self.pending = Pending::ConfigSaved { key: k, value: v };
                        Step::Request(Request::SaveConfig)
                    },
                    Err(e) => {
                        self.note_error("", e);
                        Step::Finished(Ok(()))
                    },
                },
                (None, Some(_)) => {
                    self.set_status_message(owned("Cannot set a value without a key"));
                    Step::Finished(Ok(()))
                },
            },
            Action::MigrateData(p) => {
                self.pending = Pending::Migrated;
                Step::Request(Request::Migrate(p))
            },
            Action::Reload => {
                self.pending = Pending::Reloaded;
                Step::Request(Request::LoadConfig)
            },
            Action::SetStatusMessage(m) => {
                self.set_status_message(m);
                Step::Finished(Ok(()))
            },
            Action::HelpCommand => {
                self.mode = AppMode::Modal;
                self.modal.show_help();
                Step::Finished(Ok(()))
            },
            Action::Quit => {
                self.should_quit = true;
                Step::Finished(Ok(()))
            },
        }
    }

    /// Goes on with the reply to the outside work asked for last.
    #[verifier::spinoff_prover]
    #[verifier::rlimit(60)]
    pub fn handle_reply(&mut self, reply: Reply) -> (s: Step)
        ensures
            follows(old(self)@, final(self)@, resume_spec(old(self)@, reply)),
            s@ == resume_spec(old(self)@, reply).step,
    {
        proof {
            reveal_strlit("");
            assert(""@ =~= Seq::<char>::empty());
        }
        let mut pending = Pending::Nothing;
        std::mem::swap(&mut pending, &mut self.pending);
        match (pending, reply) {
            (Pending::Created, Reply::Task(Ok(t))) => {
                let mut m = owned("Task '");
                append_str(&mut m, t.title.as_str());
                append_str(&mut m, "' created (id: ");
                append_str(&mut m, t.id.as_str());
                append_str(&mut m, ")");
                self.ask_refresh(Some(m), None)
            },
            (Pending::Created, Reply::Task(Err(e))) => Step::Finished(Err(e)),
            (Pending::OpenGet, Reply::Task(Ok(t))) => {
                self.pending = Pending::OpenEditor { title: t.title };
                Step::Request(Request::OpenTask(t.id))
            },
            (Pending::OpenGet, Reply::Task(Err(e))) => {
                self.note_error("", e);
                Step::Finished(Ok(()))
            },
            (Pending::OpenEditor { title }, Reply::Opened(Ok(in_tab))) => {
                let mut m = owned("Task '");
                append_str(&mut m, title.as_str());
                if in_tab {
                    append_str(&mut m, "' opened in editor tab");
                    self.set_status_message(m);
                    Step::Finished(Ok(()))
                } else {
                    append_str(&mut m, "' updated");
                    self.ask_refresh(Some(m), None)
                }
            },
            (Pending::OpenEditor { .. }, Reply::Opened(Err(e))) => {
                self.note_error("Editor error: ", e);
                Step::Finished(Ok(()))
            },
            (Pending::OpenEditor { .. }, Reply::Failed(e)) => Step::Finished(Err(e)),
            (Pending::Edit { id, fields, next, .. }, Reply::Task(Ok(_))) => {
                self.edit_step(id, fields, next, true)
            },
            (Pending::Edit { .. }, Reply::Task(Err(e))) => {
                self.note_error("", e);
                Step::Finished(Ok(()))
            },
            (Pending::Deleted, Reply::Done(Ok(_))) => self.ask_refresh(Some(owned("Task deleted")), None),
            (Pending::Deleted, Reply::Done(Err(e))) => {
                self.note_error("", e);
                Step::Finished(Ok(()))
            },
            (Pending::ConfirmGet { id }, Reply::Task(Ok(t))) => {
                self.mode = AppMode::Modal;
                self.modal.show_confirm_delete(id, t.title.as_str());
                Step::Finished(Ok(()))
            },
            (Pending::ConfirmGet { .. }, Reply::Task(Err(e))) => {
                self.note_error("", e);
                Step::Finished(Ok(()))
            },
            (Pending::Toggled, Reply::Task(Ok(_))) => self.ask_refresh(None, None),
            (Pending::Toggled, Reply::Task(Err(_))) => Step::Finished(Ok(())),
            (Pending::Cloned, Reply::Task(Ok(c))) => {
                let mut m = owned("Task cloned as '");
                append_str(&mut m, c.title.as_str());
                append_str(&mut m, "' (id: ");
                append_str(&mut m, c.id.as_str());
                append_str(&mut m, ")");
                self.ask_refresh(Some(m), None)
            },
            (Pending::Cloned, Reply::Task(Err(e))) => {
                self.note_error("", e);
                Step::Finished(Ok(()))
            },
            (Pending::Refresh { done, .. }, Reply::Tasks(Ok(ts))) => {
                self.refresh_tasks(ts);
                if let Some(m) = done {
                    self.set_status_message(m);
                }
                Step::Finished(Ok(()))
            },
            (Pending::Refresh { failure, .. }, Reply::Tasks(Err(e))) => match failure {
                Some(p) => {
                    self.note_error(p.as_str(), e);
                    Step::Finished(Ok(()))
                },
                None => Step::Finished(Err(e)),
            },
            (Pending::ConfigEditor, Reply::Failed(e)) => {
                self.note_error("", e);
                Step::Finished(Ok(()))
            },
            (Pending::ConfigEditor, Reply::Opened(Ok(in_tab))) => {
                if in_tab {
                    self.set_status_message(owned("Config opened in editor tab"));
                    Step::Finished(Ok(()))
                } else {
                    self.pending = Pending::ConfigLoad;
                    Step::Request(Request::LoadConfig)
                }
            },
            (Pending::ConfigEditor, Reply::Opened(Err(e))) => {
                self.note_error("Editor error: ", e);
                Step::Finished(Ok(()))
            },
            (Pending::ConfigLoad, Reply::Config(Ok(c))) => {
                self.config = c;
                self.set_status_message(owned("Config updated"));
                Step::Finished(Ok(()))
            },
            (Pending::ConfigLoad, Reply::Config(Err(e))) => {
                self.note_error("Config reload error: ", e);
                Step::Finished(Ok(()))
            },
            (Pending::EditorVariable { key }, Reply::Variable(env)) => {
                match self.config.get(key.as_str(), env) {
                    Some(v) => {
                        let mut m = key.clone();
                        append_str(&mut m, " = ");
                        append_str(&mut m, v.as_str());
                        self.set_status_message(m);
                    },
                    None => {
                        let mut m = owned("Unknown key: ");
                        append_str(&mut m, key.as_str());
                        self.set_status_message(m);
                    },
                }
                Step::Finished(Ok(()))
            },
            (Pending::ConfigSaved { key, value }, Reply::Done(Ok(_))) => {
                let mut m = key;
                append_str(&mut m, " set to ");
                append_str(&mut m, value.as_str());
                self.set_status_message(m);
                Step::Finished(Ok(()))
            },
            (Pending::ConfigSaved { .. }, Reply::Done(Err(e))) => {
                self.note_error("", e);
                Step::Finished(Ok(()))
            },
            (Pending::Migrated, Reply::Migrated(Ok(d))) => {
                self.config.data_dir = d;
                self.pending = Pending::MigrateSaved;
                Step::Request(Request::SaveConfig)
            },
            (Pending::Migrated, Reply::Migrated(Err(e))) => {
                self.note_error("Migration error: ", e);
                Step::Finished(Ok(()))
            },
            (Pending::Migrated, Reply::NoHome) => {
                self.set_status_message(owned("Could not resolve home directory"));
                Step::Finished(Ok(()))
            },
            (Pending::MigrateSaved, Reply::Done(Ok(_))) => {
                self.ask_refresh(Some(owned("Data migrated")), Some(owned("Data migrated but reload failed: ")))
            },
            (Pending::MigrateSaved, Reply::Done(Err(e))) => {
                self.note_error("Config save error: ", e);
                Step::Finished(Ok(()))
            },
            (Pending::Reloaded, Reply::Config(loaded)) => {
                if let Ok(c) = loaded {
                    self.config = c;
                }
                self.ask_refresh(Some(owned("Reloaded")), Some(owned("Reload error: ")))
            },
            _ => Step::Finished(Ok(())),
        }
    }
}

/// Moving up or down keeps a selection that is on the list on the list.
pub proof fn moves_stay_on_list(a: AppView, action: ActionView)
    requires
        action == ActionView::MoveUp || action == ActionView::MoveDown,
        a.selected < a.tasks.len(),
    ensures
        begin_spec(a, action).next.selected < a.tasks.len(),
        begin_spec(a, action).next.tasks == a.tasks,
        begin_spec(a, action).step == finished(),
{
}

/// Once the listed tasks have come, the selection is on the list (or at the top of an
/// empty list).
pub proof fn listing_keeps_selection_on_list(a: AppView, ts: Seq<Task>)
    ensures
        with_tasks(a, ts).tasks == ts,
        ts.len() > 0 ==> with_tasks(a, ts).selected < ts.len(),
        ts.len() == 0 ==> with_tasks(a, ts).selected == 0 && with_tasks(a, ts).scroll == 0,
{
}

/// Every action either finishes at once or waits for the reply to the request it makes.
pub proof fn requests_are_awaited(a: AppView, action: ActionView)
    ensures
        begin_spec(a, action).step is Request ==> !(begin_spec(a, action).next.pending is Nothing),
        begin_spec(a, action).step is Finished ==> begin_spec(a, action).next.pending is Nothing,
{
}

/// Toggling the selected task asks the store to give it the other status: an open task
/// is asked to be done, a done task to be open; the request names the selected task.
pub proof fn toggling_asks_for_the_other_status(a: AppView)
    requires
        a.selected < a.tasks.len(),
    ensures
        begin_spec(a, ActionView::ToggleDoneSelected).step matches StepView::Request(
            RequestView::Update { id, field, value },
        ) && id == a.tasks[a.selected as int].id@ && field == TaskField::Status && status_named(value)
            == Some(
            if a.tasks[a.selected as int].status == Status::Done {
                Status::Open
            } else {
                Status::Done
            },
        ) && status_named(value) != Some(a.tasks[a.selected as int].status),
{
    status_names_read_back(Status::Open);
    status_names_read_back(Status::Done);
}

/// Deleting the selected task asks first, about that task: the window shows its title
/// and holds its id, and answering yes asks the store to delete that very task.
pub proof fn deleting_asks_about_the_selected_task(a: AppView)
    requires
        a.selected < a.tasks.len(),
    ensures
        ({
            let t = a.tasks[a.selected as int];
            let asked = begin_spec(a, ActionView::DeleteSelected).next;
            let (closed, answer) = modal_step(asked.modal, KeyCode::Char('y'));
            &&& asked.modal.content == Some(
                ModalContentView::ConfirmDelete { message: delete_question(t.title@), id: t.id@ },
            )
            &&& answer == Some(ActionView::DeleteTask(t.id@))
            &&& closed.content is None
            &&& begin_spec(asked, ActionView::DeleteTask(t.id@)).step == StepView::Request(
                RequestView::Delete(t.id@),
            )
        }),
{
}

/// The delete command reads the task it names (`.` the selected one) and then asks about
/// that task: the window shows the title read and holds the id named, and answering yes
/// asks the store to delete it.
pub proof fn delete_command_asks_about_the_named_task(a: AppView, raw: Seq<char>, t: Task)
    requires
        resolved_id(a, raw) is Ok,
    ensures
        ({
            let id = resolved_id(a, raw)->Ok_0;
            let first = begin_spec(a, ActionView::ShowConfirmDelete(raw));
            let asked = resume_spec(first.next, Reply::Task(Ok(t))).next;
            &&& first.step == StepView::Request(RequestView::Get(id))
            &&& asked.modal.content == Some(
                ModalContentView::ConfirmDelete { message: delete_question(t.title@), id },
            )
            &&& modal_step(asked.modal, KeyCode::Char('y')).1 == Some(ActionView::DeleteTask(id))
        }),
        raw == seq!['.'] ==> resolved_id(a, raw)->Ok_0 == a.tasks[a.selected as int].id@,
{
}

/// Setting a value of the settings stores it: the settings then read the value back
/// under its key (an empty editor reads as the fallback, so it is left out), and they
/// are written to the settings file next.
pub proof fn setting_a_value_stores_it(a: AppView, k: Seq<char>, v: Seq<char>, env: Option<Seq<char>>)
    requires
        a.config.set_spec(k, v) is Ok,
        !(split_key(k).0 == "editor"@ && v.len() == 0),
    ensures
        begin_spec(a, ActionView::ConfigAction { key: Some(k), value: Some(v) }).next.config.get_spec(k, env)
            == Some(v),
        begin_spec(a, ActionView::ConfigAction { key: Some(k), value: Some(v) }).step == StepView::Request(
            RequestView::SaveConfig,
        ),
{
    config_set_then_get(a.config, k, k, v, env);
}

/// Whether the key press is Control and the letter `c`.
pub open spec fn is_ctrl(e: KeyEvent, c: char) -> bool {
    e.code == KeyCode::Char(c) && e.ctrl
}

/// Whether the key press is one that the command bar leaves to the application:
/// Control with `p`, `e`, `n`, `b` or `q`.
pub open spec fn bar_shortcut(e: KeyEvent) -> bool {
    is_ctrl(e, 'p') || is_ctrl(e, 'e') || is_ctrl(e, 'n') || is_ctrl(e, 'b') || is_ctrl(e, 'q')
}

/// What a key press does, by mode: the list, the command bar (where Control with `p`
/// closes it, with `e` or `n` swaps it for a prefilled one, with `b` opens the settings and
/// with `q` quits), or the modal window. Closing the bar or the window goes back to the
/// list.
pub open spec fn key_spec(a: AppView, e: KeyEvent) -> (AppView, Option<ActionView>) {
    match a.mode {
        AppMode::Normal => (a, list_key_action(a.bindings, e)),
        AppMode::Command => if is_ctrl(e, 'p') {
            (AppView { bar: hidden_bar(), mode: AppMode::Normal, ..a }, None)
        } else if is_ctrl(e, 'e') {
            (AppView { bar: hidden_bar(), ..a }, Some(ActionView::EditTaskPrefill))
        } else if is_ctrl(e, 'n') {
            (AppView { bar: hidden_bar(), ..a }, Some(ActionView::NewTaskPrefill))
        } else if is_ctrl(e, 'b') {
            (a, Some(ActionView::OpenConfig))
        } else if is_ctrl(e, 'q') {
            (a, Some(ActionView::Quit))
        } else if a.bar.visible {
            let (b, act) = bar_step(a.bar, e.code);
            (
                AppView {
                    bar: b,
                    mode: if !b.visible {
                        AppMode::Normal
                    } else {
                        a.mode
                    },
                    ..a
                },
                act,
            )
        } else {
            (a, None)
        },
        AppMode::Modal => {
            let (m, act) = modal_step(a.modal, e.code);
            (
                AppView {
                    modal: m,
                    mode: if a.modal.content is Some && m.content is None {
                        AppMode::Normal
                    } else {
                        a.mode
                    },
                    ..a
                },
                act,
            )
        },
    }
}

impl App {
    /// Whether `handle_key` can take the key press: a shown command bar must be able to
    /// take the keys it handles without cutting a character.
    pub fn accepts_key(&self, event: &KeyEvent) -> (r: bool)
        ensures
            r == (self@.mode == AppMode::Command && self@.bar.visible && !bar_shortcut(*event)
                ==> edit_allowed(self@.bar, event.code)),
    {
        let shortcut = event.ctrl && (event.code == KeyCode::Char('p') || event.code == KeyCode::Char('e')
            || event.code == KeyCode::Char('n') || event.code == KeyCode::Char('b') || event.code
            == KeyCode::Char('q'));
        if self.mode == AppMode::Command && self.command_bar.visible && !shortcut {
            self.command_bar.accepts(event.code)
        } else {
            true
        }
    }

    /// The action of a key press, and what the key does to the bar, the window and the mode.
    pub fn handle_key(&mut self, event: &KeyEvent) -> (r: Option<Action>)
        requires
            old(self)@.mode == AppMode::Command && old(self)@.bar.visible && !bar_shortcut(*event)
                ==> edit_allowed(old(self)@.bar, event.code),
        ensures
            (final(self)@, action_view(r)) == key_spec(old(self)@, *event),
    {
        let ctrl_p = event.code == KeyCode::Char('p') && event.ctrl;
        let ctrl_e = event.code == KeyCode::Char('e') && event.ctrl;
        let ctrl_n = event.code == KeyCode::Char('n') && event.ctrl;
        let ctrl_b = event.code == KeyCode::Char('b') && event.ctrl;
        let ctrl_q = event.code == KeyCode::Char('q') && event.ctrl;
        match self.mode {
            AppMode::Normal => self.task_list.handle_input(event),
            AppMode::Command => {
                if ctrl_p {
                    self.command_bar.hide_bar();
                    self.mode = AppMode::Normal;
                    None
                } else if ctrl_e {
                    self.command_bar.hide_bar();
                    Some(Action::EditTaskPrefill)
                } else if ctrl_n {
                    self.command_bar.hide_bar();
                    Some(Action::NewTaskPrefill)
                } else if ctrl_b {
                    Some(Action::OpenConfig)
                } else if ctrl_q {
                    Some(Action::Quit)
                } else {
                    let was_visible = self.command_bar.visible;
                    let action = self.command_bar.handle_input(event);
                    if was_visible && !self.command_bar.visible {
                        self.mode = AppMode::Normal;
                    }
                    action
                }
            },
            AppMode::Modal => {
                let was_open = self.modal.is_open();
                let action = self.modal.handle_input(event);
                if was_open && !self.modal.is_open() {
                    self.mode = AppMode::Normal;
                }
                action
            },
        }
    }
}

} // verus!
