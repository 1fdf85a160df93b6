//! What the user asks of the application.

use vstd::prelude::*;

use crate::commands::{opt_view, pairs_view};
use crate::task::model::{Date, Filter};

verus! {

/// Something the application is asked to do, by a key or by a command.
#[derive(Debug, Clone)]
pub enum Action {
    MoveUp,
    MoveDown,
    NewTask { title: String, description: String, due: Option<Date> },
    NewTaskPrefill,
    EditTaskPrefill,
    OpenTaskExternal(String),
    EditTask { id: String, fields: Vec<(String, String)> },
    DeleteTask(String),
    ShowConfirmDelete(String),
    ToggleDoneSelected,
    ShowDetailSelected,
    DeleteSelected,
    CloneTask(String),
    SetFilter(Filter),
    ShowDetail(usize),
    CloseModal,
    ToggleCommandBar,
    OpenConfig,
    ConfigAction { key: Option<String>, value: Option<String> },
    MigrateData(String),
    Reload,
    SetStatusMessage(String),
    HelpCommand,
    Quit,
}

/// An action with its text taken as character sequences.
pub enum ActionView {
    MoveUp,
    MoveDown,
    NewTask { title: Seq<char>, description: Seq<char>, due: Option<Date> },
    NewTaskPrefill,
    EditTaskPrefill,
    OpenTaskExternal(Seq<char>),
    EditTask { id: Seq<char>, fields: Seq<(Seq<char>, Seq<char>)> },
    DeleteTask(Seq<char>),
    ShowConfirmDelete(Seq<char>),
    ToggleDoneSelected,
    ShowDetailSelected,
    DeleteSelected,
    CloneTask(Seq<char>),
    SetFilter(Filter),
    ShowDetail(usize),
    CloseModal,
    ToggleCommandBar,
    OpenConfig,
    ConfigAction { key: Option<Seq<char>>, value: Option<Seq<char>> },
    MigrateData(Seq<char>),
    Reload,
    SetStatusMessage(Seq<char>),
    HelpCommand,
    Quit,
}

impl View for Action {
    type V = ActionView;

    open spec fn view(&self) -> ActionView {
        match self {
            Action::MoveUp => ActionView::MoveUp,
            Action::MoveDown => ActionView::MoveDown,
            Action::NewTask { title, description, due } => ActionView::NewTask {
                title: title@,
                description: description@,
                due: *due,
            },
            Action::NewTaskPrefill => ActionView::NewTaskPrefill,
            Action::EditTaskPrefill => ActionView::EditTaskPrefill,
            Action::OpenTaskExternal(id) => ActionView::OpenTaskExternal(id@),
            Action::EditTask { id, fields } => ActionView::EditTask {
                id: id@,
                fields: pairs_view(fields@),
            },
            Action::DeleteTask(id) => ActionView::DeleteTask(id@),
            Action::ShowConfirmDelete(id) => ActionView::ShowConfirmDelete(id@),
            Action::ToggleDoneSelected => ActionView::ToggleDoneSelected,
            Action::ShowDetailSelected => ActionView::ShowDetailSelected,
            Action::DeleteSelected => ActionView::DeleteSelected,
            Action::CloneTask(id) => ActionView::CloneTask(id@),
            Action::SetFilter(f) => ActionView::SetFilter(*f),
            Action::ShowDetail(i) => ActionView::ShowDetail(*i),
            Action::CloseModal => ActionView::CloseModal,
            Action::ToggleCommandBar => ActionView::ToggleCommandBar,
            Action::OpenConfig => ActionView::OpenConfig,
            Action::ConfigAction { key, value } => ActionView::ConfigAction {
                key: opt_view(*key),
                value: opt_view(*value),
            },
            Action::MigrateData(p) => ActionView::MigrateData(p@),
            Action::Reload => ActionView::Reload,
            Action::SetStatusMessage(m) => ActionView::SetStatusMessage(m@),
            Action::HelpCommand => ActionView::HelpCommand,
            Action::Quit => ActionView::Quit,
        }
    }
}

} // verus!
