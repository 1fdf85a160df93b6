//! The library's error type.

use vstd::prelude::*;

use crate::text::{append_str, owned};

verus! {

#[verifier::external_type_specification]
#[verifier::external_body]
pub struct ExIoError(std::io::Error);

#[verifier::external_type_specification]
#[verifier::external_body]
pub struct ExYamlError(serde_yaml::Error);

/// Every failure the application reports.
#[derive(Debug)]
pub enum AppError {
    Io(std::io::Error),
    Yaml(serde_yaml::Error),
    Toml(String),
    Config(String),
    TaskNotFound(String),
    ParseError(String),
    CommandError(String),
    Terminal(String),
    Editor(String),
    HomeDir,
}

/// What a contract can say of an `AppError`: its kind and its text.
pub enum AppErrorView {
    Io,
    Yaml,
    Toml(Seq<char>),
    Config(Seq<char>),
    TaskNotFound(Seq<char>),
    ParseError(Seq<char>),
    CommandError(Seq<char>),
    Terminal(Seq<char>),
    Editor(Seq<char>),
    HomeDir,
}

impl View for AppError {
    type V = AppErrorView;

    open spec fn view(&self) -> AppErrorView {
        match self {
            AppError::Io(_) => AppErrorView::Io,
            AppError::Yaml(_) => AppErrorView::Yaml,
            AppError::Toml(m) => AppErrorView::Toml(m@),
            AppError::Config(m) => AppErrorView::Config(m@),
            AppError::TaskNotFound(m) => AppErrorView::TaskNotFound(m@),
            AppError::ParseError(m) => AppErrorView::ParseError(m@),
            AppError::CommandError(m) => AppErrorView::CommandError(m@),
            AppError::Terminal(m) => AppErrorView::Terminal(m@),
            AppError::Editor(m) => AppErrorView::Editor(m@),
            AppError::HomeDir => AppErrorView::HomeDir,
        }
    }
}

/// How an error reads, for every kind whose text is the library's own; the text of an
/// I/O or YAML error comes from the error itself.
pub open spec fn error_text(e: AppErrorView) -> Option<Seq<char>> {
    match e {
        AppErrorView::Io => None,
        AppErrorView::Yaml => None,
        AppErrorView::Toml(m) => Some("TOML error: "@ + m),
        AppErrorView::Config(m) => Some("Config error: "@ + m),
        AppErrorView::TaskNotFound(id) => Some("Task not found: "@ + id),
        AppErrorView::ParseError(m) => Some("Parse error: "@ + m),
        AppErrorView::CommandError(m) => Some("Command error: "@ + m),
        AppErrorView::Terminal(m) => Some("Terminal error: "@ + m),
        AppErrorView::Editor(m) => Some("Editor error: "@ + m),
        AppErrorView::HomeDir => Some("Could not find home directory"@),
    }
}

/// Calls `ToString::to_string` on an I/O error (its `Display` text, which comes from
/// the operating system); nothing is stated of it.
#[verifier::external_body]
fn io_error_text(e: &std::io::Error) -> String {
    e.to_string()
}

/// Calls `ToString::to_string` on a `serde_yaml` error (its `Display` text); nothing is
/// stated of it.
#[verifier::external_body]
fn yaml_error_text(e: &serde_yaml::Error) -> String {
    e.to_string()
}

impl AppError {
    /// The text of the error, as it is shown to the user.
    pub fn to_string(&self) -> (r: String)
        ensures
            error_text(self@) matches Some(t) ==> r@ == t,
            self@ is Io ==> r@.subrange(0, 10) == "IO error: "@,
            self@ is Yaml ==> r@.subrange(0, 12) == "YAML error: "@,
    {
        let (mut r, tail) = match self {
            AppError::Io(e) => (owned("IO error: "), io_error_text(e)),
            AppError::Yaml(e) => (owned("YAML error: "), yaml_error_text(e)),
            AppError::Toml(m) => (owned("TOML error: "), m.clone()),
            AppError::Config(m) => (owned("Config error: "), m.clone()),
            AppError::TaskNotFound(id) => (owned("Task not found: "), id.clone()),
            AppError::ParseError(m) => (owned("Parse error: "), m.clone()),
            AppError::CommandError(m) => (owned("Command error: "), m.clone()),
            AppError::Terminal(m) => (owned("Terminal error: "), m.clone()),
            AppError::Editor(m) => (owned("Editor error: "), m.clone()),
            AppError::HomeDir => (owned("Could not find home directory"), String::new()),
        };
        let ghost head = r@;
        append_str(&mut r, tail.as_str());
        proof {
            reveal_strlit("IO error: ");
            reveal_strlit("YAML error: ");
            assert(r@.subrange(0, head.len() as int) =~= head);
            if self@ is HomeDir {
                assert(r@ =~= head);
            }
        }
        r
    }
}

} // verus!
