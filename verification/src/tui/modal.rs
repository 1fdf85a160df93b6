//! The modal window: a task's details, a confirmation, or the help text.

use vstd::prelude::*;

use crate::action::{Action, ActionView};
use crate::task::model::Status;
use crate::text::{append_str, owned};
use crate::tui::command_bar::action_view;
use crate::tui::{KeyCode, KeyEvent};

verus! {

/// What a confirmation confirms.
#[derive(Debug, Clone)]
pub enum ConfirmAction {
    Delete(String),
}

/// What the modal window shows.
#[derive(Debug, Clone)]
pub enum ModalContent {
    TaskDetail(usize),
    Confirm { message: String, action: ConfirmAction },
    Help,
}

/// What the modal window shows, with its text as characters.
pub enum ModalContentView {
    TaskDetail(usize),
    ConfirmDelete { message: Seq<char>, id: Seq<char> },
    Help,
}

impl View for ModalContent {
    type V = ModalContentView;

    open spec fn view(&self) -> ModalContentView {
        match self {
            ModalContent::TaskDetail(i) => ModalContentView::TaskDetail(*i),
            ModalContent::Confirm { message, action } => match action {
                ConfirmAction::Delete(id) => ModalContentView::ConfirmDelete {
                    message: message@,
                    id: id@,
                },
            },
            ModalContent::Help => ModalContentView::Help,
        }
    }
}

/// The modal window and how far its help text is scrolled.
pub struct ModalState {
    pub modal: Option<ModalContent>,
    pub help_scroll: usize,
    pub help_max_scroll: usize,
}

/// The modal window as a value.
pub struct ModalView {
    pub content: Option<ModalContentView>,
    pub scroll: usize,
    pub max_scroll: usize,
}

impl View for ModalState {
    type V = ModalView;

    open spec fn view(&self) -> ModalView {
        ModalView {
            content: match self.modal {
                Some(c) => Some(c@),
                None => None,
            },
            scroll: self.help_scroll,
            max_scroll: self.help_max_scroll,
        }
    }
}

/// The question asked before deleting a task titled `title`.
pub open spec fn delete_question(title: Seq<char>) -> Seq<char> {
    "Delete '"@ + title + "'?"@
}

/// Whether the key closes a window (`Esc` or `q`).
pub open spec fn is_close_key(code: KeyCode) -> bool {
    code == KeyCode::Esc || code == KeyCode::Char('q')
}

/// What a key does to an open modal window, and the action it yields.
pub open spec fn modal_step(m: ModalView, code: KeyCode) -> (ModalView, Option<ActionView>) {
    let closed = ModalView { content: None, ..m };
    match m.content {
        None => (m, None),
        Some(ModalContentView::TaskDetail(_)) => if is_close_key(code) {
            (closed, Some(ActionView::CloseModal))
        } else {
            (m, None)
        },
        Some(ModalContentView::Help) => if is_close_key(code) {
            (closed, Some(ActionView::CloseModal))
        } else if code == KeyCode::Up || code == KeyCode::Char('k') {
            (
                ModalView {
                    scroll: if m.scroll > 0 {
                        (m.scroll - 1) as usize
                    } else {
                        m.scroll
                    },
                    ..m
                },
                None,
            )
        } else if code == KeyCode::Down || code == KeyCode::Char('j') {
            (
                ModalView {
                    scroll: if m.scroll < m.max_scroll {
                        (m.scroll + 1) as usize
                    } else {
                        m.scroll
                    },
                    ..m
                },
                None,
            )
        } else {
            (m, None)
        },
        Some(ModalContentView::ConfirmDelete { message, id }) => if code == KeyCode::Char('y')
            || code == KeyCode::Char('Y') || code == KeyCode::Enter {
            (closed, Some(ActionView::DeleteTask(id)))
        } else if code == KeyCode::Char('n') || code == KeyCode::Char('N') || is_close_key(code) {
            (closed, Some(ActionView::CloseModal))
        } else {
            (m, None)
        },
    }
}

impl ModalState {
    /// No modal window.
    pub fn new() -> (m: Self)
        ensures
            m@ == (ModalView { content: None, scroll: 0, max_scroll: 0 }),
    {
        ModalState { modal: None, help_scroll: 0, help_max_scroll: 0 }
    }

    /// Shows the details of the task at `index` of the list.
    pub fn show_detail(&mut self, index: usize)
        ensures
            final(self)@ == (ModalView {
                content: Some(ModalContentView::TaskDetail(index)),
                ..old(self)@
            }),
    {
        self.modal = Some(ModalContent::TaskDetail(index));
    }

    /// Asks whether to delete the task `id` titled `title`.
    pub fn show_confirm_delete(&mut self, id: String, title: &str)
        ensures
            final(self)@ == (ModalView {
                content: Some(ModalContentView::ConfirmDelete { message: delete_question(title@), id: id@ }),
                ..old(self)@
            }),
    {
        let mut message = owned("Delete '");
        append_str(&mut message, title);
        append_str(&mut message, "'?");
        self.modal = Some(ModalContent::Confirm { message, action: ConfirmAction::Delete(id) });
    }

    /// Shows the help text, scrolled to its top.
    pub fn show_help(&mut self)
        ensures
            final(self)@ == (ModalView { content: Some(ModalContentView::Help), scroll: 0, max_scroll: 0 }),
    {
        self.help_scroll = 0;
        self.help_max_scroll = 0;
        self.modal = Some(ModalContent::Help);
    }

    /// Closes the modal window.
    pub fn close(&mut self)
        ensures
            final(self)@ == (ModalView { content: None, ..old(self)@ }),
    {
        self.modal = None;
    }

    /// Whether a modal window is open.
    pub fn is_open(&self) -> (r: bool)
        ensures
            r == (self@.content is Some),
    {
        self.modal.is_some()
    }

    /// How far the help text is scrolled.
    pub fn help_scroll(&self) -> (r: usize)
        ensures
            r == self@.scroll,
    {
        self.help_scroll
    }

    /// Fits the help scroll to a text of `line_count` lines: it can scroll until the
    /// last line is at the top.
    pub fn fit_help_scroll(&mut self, line_count: usize)
        ensures
            final(self)@.max_scroll == (if line_count > 0 {
                line_count - 1
            } else {
                0
            }),
            final(self)@.scroll == (if old(self)@.scroll < final(self)@.max_scroll {
                old(self)@.scroll
            } else {
                final(self)@.max_scroll
            }),
            final(self)@.content == old(self)@.content,
    {
        let max = if line_count > 0 {
            line_count - 1
        } else {
            0
        };
        self.help_max_scroll = max;
        if self.help_scroll > max {
            self.help_scroll = max;
        }
    }

    /// Handles a key while the modal window is open.
    pub fn handle_input(&mut self, event: &KeyEvent) -> (r: Option<Action>)
        ensures
            (final(self)@, action_view(r)) == modal_step(old(self)@, event.code),
    {
        let code = event.code;
        let close_key = code == KeyCode::Esc || code == KeyCode::Char('q');
        match &self.modal {
            None => None,
            Some(ModalContent::TaskDetail(_)) => {
                if close_key {
                    self.close();
                    Some(Action::CloseModal)
                } else {
                    None
                }
            },
            Some(ModalContent::Help) => {
                if close_key {
                    self.close();
                    Some(Action::CloseModal)
                } else if code == KeyCode::Up || code == KeyCode::Char('k') {
                    if self.help_scroll > 0 {
                        self.help_scroll = self.help_scroll - 1;
                    }
                    None
                } else if code == KeyCode::Down || code == KeyCode::Char('j') {
                    if self.help_scroll < self.help_max_scroll {
                        self.help_scroll = self.help_scroll + 1;
                    }
                    None
                } else {
                    None
                }
            },
            Some(ModalContent::Confirm { action, .. }) => {
                if code == KeyCode::Char('y') || code == KeyCode::Char('Y') || code == KeyCode::Enter {
                    let id = match action {
                        ConfirmAction::Delete(id) => id.clone(),
                    };
                    self.close();
                    Some(Action::DeleteTask(id))
                } else if code == KeyCode::Char('n') || code == KeyCode::Char('N') || close_key {
                    self.close();
                    Some(Action::CloseModal)
                } else {
                    None
                }
            },
        }
    }
}

/// The help text never scrolls past its end: a scroll within bounds stays within them
/// whatever key is pressed.
pub proof fn help_scroll_stays_in_bounds(m: ModalView, code: KeyCode)
    requires
        m.scroll <= m.max_scroll,
    ensures
        modal_step(m, code).0.scroll <= modal_step(m, code).0.max_scroll,
        modal_step(m, code).0.max_scroll == m.max_scroll,
{
}

/// Every key that yields an action from an open window closes it, and a closed window
/// takes no key.
pub proof fn actions_close_the_window(m: ModalView, code: KeyCode)
    ensures
        modal_step(m, code).1 is Some ==> modal_step(m, code).0.content is None,
        m.content is None ==> modal_step(m, code) == (m, None::<ActionView>),
{
}

/// `v` brought into `lo..=hi`.
pub open spec fn clamp16(v: u16, lo: u16, hi: u16) -> u16 {
    if v < lo {
        lo
    } else if v > hi {
        hi
    } else {
        v
    }
}

/// The size of the window showing `content` in an area `w` by `h`: 40 to 60 columns,
/// and 10 to 16 rows for details, 5 for a confirmation, 18 to 22 for the help text.
pub open spec fn window_size(content: ModalContentView, w: u16, h: u16) -> (u16, u16) {
    (
        clamp16(w, 40, 60),
        match content {
            ModalContentView::TaskDetail(_) => clamp16(h, 10, 16),
            ModalContentView::ConfirmDelete { .. } => 5,
            ModalContentView::Help => clamp16(h, 18, 22),
        },
    )
}

/// Half of what is left of `total` around `size` (none when it does not fit).
pub open spec fn margin(total: u16, size: u16) -> int {
    if total >= size {
        (total - size) / 2
    } else {
        0
    }
}

/// The window showing `content`, centred in an area `w` by `h`: its column and row
/// within the area, its width and its height.
pub open spec fn window_rect(content: ModalContentView, w: u16, h: u16) -> (int, int, u16, u16) {
    let (ww, wh) = window_size(content, w, h);
    (margin(w, ww), margin(h, wh), ww, wh)
}

/// The words that give a task's status in its details.
pub fn status_label(status: Status) -> (r: &'static str)
    ensures
        r@ == (if status == Status::Done {
            "Done"@
        } else {
            "Open"@
        }),
{
    if status == Status::Done {
        "Done"
    } else {
        "Open"
    }
}

impl ModalState {
    /// Where the open window goes in an area `w` by `h`: its column and row within the
    /// area, its width and its height.
    pub fn window(&self, w: u16, h: u16) -> (r: Option<(u16, u16, u16, u16)>)
        ensures
            match self@.content {
                None => r is None,
                Some(c) => r matches Some(t) && (t.0 as int, t.1 as int, t.2, t.3) == window_rect(c, w, h),
            },
    {
        let height: u16 = match &self.modal {
            None => {
                return None;
            },
            Some(ModalContent::TaskDetail(_)) => if h < 10 {
                10
            } else if h > 16 {
                16
            } else {
                h
            },
            Some(ModalContent::Confirm { .. }) => 5,
            Some(ModalContent::Help) => if h < 18 {
                18
            } else if h > 22 {
                22
            } else {
                h
            },
        };
        let width: u16 = if w < 40 {
            40
        } else if w > 60 {
            60
        } else {
            w
        };
        let left = if w >= width {
            (w - width) / 2
        } else {
            0
        };
        let top = if h >= height {
            (h - height) / 2
        } else {
            0
        };
        Some((left, top, width, height))
    }
}

} // verus!
