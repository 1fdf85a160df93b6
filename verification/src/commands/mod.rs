//! Commands typed into the command bar.

use vstd::prelude::*;

pub mod parser;

verus! {

/// A command of the command bar, as `parser::parse` reads it.
#[derive(Debug, Clone, PartialEq)]
pub enum Command {
    New { title: String, description: String, due: Option<String> },
    Open(String),
    Edit { id: String, fields: Vec<(String, String)> },
    Delete(String),
    Done(String),
    Undone(String),
    Clone(String),
    List(Option<String>),
    Config { key: Option<String>, value: Option<String> },
    Migrate(String),
    Reload,
    Help,
    Quit,
}

/// A command with its text taken as character sequences.
pub enum CommandView {
    New { title: Seq<char>, description: Seq<char>, due: Option<Seq<char>> },
    Open(Seq<char>),
    Edit { id: Seq<char>, fields: Seq<(Seq<char>, Seq<char>)> },
    Delete(Seq<char>),
    Done(Seq<char>),
    Undone(Seq<char>),
    Clone(Seq<char>),
    List(Option<Seq<char>>),
    Config { key: Option<Seq<char>>, value: Option<Seq<char>> },
    Migrate(Seq<char>),
    Reload,
    Help,
    Quit,
}

pub open spec fn opt_view(o: Option<String>) -> Option<Seq<char>> {
    match o {
        Some(s) => Some(s@),
        None => None,
    }
}

pub open spec fn pairs_view(v: Seq<(String, String)>) -> Seq<(Seq<char>, Seq<char>)> {
    v.map_values(|p: (String, String)| (p.0@, p.1@))
}

impl View for Command {
    type V = CommandView;

    open spec fn view(&self) -> CommandView {
        match self {
            Command::New { title, description, due } => CommandView::New {
                title: title@,
                description: description@,
                due: opt_view(*due),
            },
            Command::Open(id) => CommandView::Open(id@),
            Command::Edit { id, fields } => CommandView::Edit { id: id@, fields: pairs_view(fields@) },
            Command::Delete(id) => CommandView::Delete(id@),
            Command::Done(id) => CommandView::Done(id@),
            Command::Undone(id) => CommandView::Undone(id@),
            Command::Clone(id) => CommandView::Clone(id@),
            Command::List(f) => CommandView::List(opt_view(*f)),
            Command::Config { key, value } => CommandView::Config {
                key: opt_view(*key),
                value: opt_view(*value),
            },
            Command::Migrate(p) => CommandView::Migrate(p@),
            Command::Reload => CommandView::Reload,
            Command::Help => CommandView::Help,
            Command::Quit => CommandView::Quit,
        }
    }
}

} // verus!
