//! The command bar: a one-line editor whose text is read as a command on Enter.

use vstd::prelude::*;

use crate::action::{Action, ActionView};
use crate::commands::parser::{parse, parse_result};
use crate::commands::{Command, CommandView};
use crate::errors::error_text;
use crate::task::model::{filter_named, Date, Filter};
use crate::task::store::{date_parse, parse_date};
use crate::text::{append_str, at_char_boundary, byte_len, owned, trim, trim_string, utf8_len, utf8_width};
use crate::tui::{KeyCode, KeyEvent};

verus! {

/// Calls `String::insert`, which puts `c` in front of the character that starts at byte
/// `idx` (or at the end when `idx` is the length); it panics when `idx` is not between
/// two characters.
#[verifier::external_body]
fn insert_char(s: &mut String, idx: usize, c: char)
    requires
        at_char_boundary(old(s)@, idx as int),
    ensures
        exists|k: int|
            0 <= k <= old(s)@.len() && utf8_len(#[trigger] old(s)@.subrange(0, k)) == idx
                && final(s)@ == old(s)@.insert(k, c),
{
    s.insert(idx, c);
}

/// Calls `String::remove`, which takes out the character that starts at byte `idx`; it
/// panics when no character starts there.
#[verifier::external_body]
fn remove_char(s: &mut String, idx: usize) -> (c: char)
    requires
        idx < utf8_len(old(s)@),
        at_char_boundary(old(s)@, idx as int),
    ensures
        exists|k: int|
            0 <= k < old(s)@.len() && utf8_len(#[trigger] old(s)@.subrange(0, k)) == idx
                && final(s)@ == old(s)@.remove(k) && c == old(s)@[k],
{
    s.remove(idx)
}

/// The prefixes of a text grow strictly in bytes as they grow in characters.
pub proof fn lemma_prefix_bytes_grow(s: Seq<char>, j: int, k: int)
    requires
        0 <= j < k <= s.len(),
    ensures
        utf8_len(s.subrange(0, j)) < utf8_len(s.subrange(0, k)),
    decreases k - j,
{
    assert(s.subrange(0, k).drop_last() =~= s.subrange(0, k - 1));
    if j < k - 1 {
        lemma_prefix_bytes_grow(s, j, k - 1);
    }
}

/// The index of the character that starts at byte `b` of `s`.
pub open spec fn char_at_byte(s: Seq<char>, b: int) -> int {
    choose|k: int| 0 <= k <= s.len() && utf8_len(#[trigger] s.subrange(0, k)) == b
}

pub proof fn lemma_char_at_byte(s: Seq<char>, b: int, k: int)
    requires
        0 <= k <= s.len(),
        utf8_len(s.subrange(0, k)) == b,
    ensures
        char_at_byte(s, b) == k,
{
    let c = char_at_byte(s, b);
    assert(0 <= c <= s.len() && utf8_len(s.subrange(0, c)) == b);
    if c < k {
        lemma_prefix_bytes_grow(s, c, k);
    } else if k < c {
        lemma_prefix_bytes_grow(s, k, c);
    }
}

/// The command bar: whether it shows, its text, and the cursor as a byte offset.
pub struct CommandBar {
    pub visible: bool,
    pub input: String,
    pub cursor_position: u16,
}

/// The command bar with its text as characters.
pub struct CommandBarView {
    pub visible: bool,
    pub input: Seq<char>,
    pub cursor: u16,
}

impl View for CommandBar {
    type V = CommandBarView;

    open spec fn view(&self) -> CommandBarView {
        CommandBarView { visible: self.visible, input: self.input@, cursor: self.cursor_position }
    }
}

/// The action that a command stands for. A due date that does not read as a date, or a
/// filter name that is not known, becomes a status message instead.
pub open spec fn command_action(c: CommandView) -> ActionView {
    match c {
        CommandView::New { title, description, due } => match due {
            Some(d) => if d.len() > 0 {
                match date_parse(d) {
                    Ok((y, m, dd)) => ActionView::NewTask {
                        title,
                        description,
                        due: Some(Date { year: y, month: m, day: dd }),
                    },
                    Err(_) => ActionView::SetStatusMessage(
                        "Invalid date '"@ + d + "'. Use YYYY-MM-DD"@,
                    ),
                }
            } else {
                ActionView::NewTask { title, description, due: None }
            },
            None => ActionView::NewTask { title, description, due: None },
        },
        CommandView::Open(id) => ActionView::OpenTaskExternal(id),
        CommandView::Edit { id, fields } => ActionView::EditTask { id, fields },
        CommandView::Delete(id) => ActionView::ShowConfirmDelete(id),
        CommandView::Done(id) => ActionView::EditTask { id, fields: seq![("status"@, "done"@)] },
        CommandView::Undone(id) => ActionView::EditTask { id, fields: seq![("status"@, "open"@)] },
        CommandView::Clone(id) => ActionView::CloneTask(id),
        CommandView::List(f) => match f {
            Some(s) => match filter_named(s) {
                Some(fl) => ActionView::SetFilter(fl),
                None => ActionView::SetStatusMessage(
                    "Unknown filter '"@ + s + "'. Use: all, todo, done"@,
                ),
            },
            None => ActionView::SetFilter(Filter::All),
        },
        CommandView::Config { key, value } => ActionView::ConfigAction { key, value },
        CommandView::Migrate(p) => ActionView::MigrateData(p),
        CommandView::Reload => ActionView::Reload,
        CommandView::Help => ActionView::HelpCommand,
        CommandView::Quit => ActionView::Quit,
    }
}

/// What Enter does with the text of the bar: nothing for blank text, the command's
/// action, or a status message with the parse error.
pub open spec fn entered_action(input: Seq<char>) -> Option<ActionView> {
    if trim(input).len() == 0 {
        None
    } else {
        match parse_result(input) {
            Ok(c) => Some(command_action(c)),
            Err(e) => Some(ActionView::SetStatusMessage("Error: "@ + error_text(e)->0)),
        }
    }
}

pub open spec fn action_view(a: Option<Action>) -> Option<ActionView> {
    match a {
        Some(a) => Some(a@),
        None => None,
    }
}

/// The bar hidden, with no text.
pub open spec fn hidden_bar() -> CommandBarView {
    CommandBarView { visible: false, input: Seq::<char>::empty(), cursor: 0 }
}

/// Whether the bar can take the key without cutting a character: the cursor must
/// fall between characters wherever the key edits the text, and stay countable.
pub open spec fn edit_allowed(b: CommandBarView, code: KeyCode) -> bool {
    match code {
        KeyCode::Backspace => b.cursor > 0 ==> (b.cursor - 1 < utf8_len(b.input) && at_char_boundary(
            b.input,
            b.cursor - 1,
        )),
        KeyCode::Delete => b.cursor < utf8_len(b.input) ==> at_char_boundary(b.input, b.cursor as int),
        KeyCode::Char(_) => at_char_boundary(b.input, b.cursor as int) && b.cursor < 65535,
        KeyCode::Right => b.cursor < utf8_len(b.input) ==> b.cursor < 65535,
        _ => true,
    }
}

/// What a key does to the shown bar, and the action it yields.
pub open spec fn bar_step(b: CommandBarView, code: KeyCode) -> (CommandBarView, Option<ActionView>) {
    match code {
        KeyCode::Esc => (hidden_bar(), None),
        KeyCode::Enter => (hidden_bar(), entered_action(b.input)),
        KeyCode::Backspace => if b.cursor > 0 {
            (
                CommandBarView {
                    input: b.input.remove(char_at_byte(b.input, b.cursor - 1)),
                    cursor: (b.cursor - 1) as u16,
                    ..b
                },
                None,
            )
        } else {
            (b, None)
        },
        KeyCode::Delete => if b.cursor < utf8_len(b.input) {
            (CommandBarView { input: b.input.remove(char_at_byte(b.input, b.cursor as int)), ..b }, None)
        } else {
            (b, None)
        },
        KeyCode::Left => (
            CommandBarView {
                cursor: if b.cursor > 0 {
                    (b.cursor - 1) as u16
                } else {
                    0
                },
                ..b
            },
            None,
        ),
        KeyCode::Right => if b.cursor < utf8_len(b.input) {
            (CommandBarView { cursor: (b.cursor + 1) as u16, ..b }, None)
        } else {
            (b, None)
        },
        KeyCode::Home => (CommandBarView { cursor: 0, ..b }, None),
        KeyCode::End => (CommandBarView { cursor: (utf8_len(b.input) % 65536) as u16, ..b }, None),
        KeyCode::Char(c) => (
            CommandBarView {
                input: b.input.insert(char_at_byte(b.input, b.cursor as int), c),
                cursor: (b.cursor + 1) as u16,
                ..b
            },
            None,
        ),
        _ => (b, None),
    }
}

/// The action that a parsed command stands for.
pub fn action_for_command(c: Command) -> (a: Action)
    ensures
        a@ == command_action(c@),
{
    match c {
        Command::New { title, description, due } => {
            let due_date = match due {
                Some(d) => {
                    if !d.as_str().is_empty() {
                        match parse_date(d.as_str()) {
                            Ok(date) => Some(date),
                            Err(_) => {
                                let mut m = owned("Invalid date '");
                                append_str(&mut m, d.as_str());
                                append_str(&mut m, "'. Use YYYY-MM-DD");
                                return Action::SetStatusMessage(m);
                            },
                        }
                    } else {
                        None
                    }
                },
                None => None,
            };
            Action::NewTask { title, description, due: due_date }
        },
        Command::Open(id) => Action::OpenTaskExternal(id),
        Command::Edit { id, fields } => Action::EditTask { id, fields },
        Command::Delete(id) => Action::ShowConfirmDelete(id),
        Command::Done(id) => {
            let mut fields: Vec<(String, String)> = Vec::new();
            fields.push((owned("status"), owned("done")));
            proof {
                assert(crate::commands::pairs_view(fields@) =~= seq![("status"@, "done"@)]);
            }
            Action::EditTask { id, fields }
        },
        Command::Undone(id) => {
            let mut fields: Vec<(String, String)> = Vec::new();
            fields.push((owned("status"), owned("open")));
            proof {
                assert(crate::commands::pairs_view(fields@) =~= seq![("status"@, "open"@)]);
            }
            Action::EditTask { id, fields }
        },
        Command::Clone(id) => Action::CloneTask(id),
        Command::List(filter_str) => match filter_str {
            Some(s) => match Filter::from_str(s.as_str()) {
                Some(f) => Action::SetFilter(f),
                None => {
                    let mut m = owned("Unknown filter '");
                    append_str(&mut m, s.as_str());
                    append_str(&mut m, "'. Use: all, todo, done");
                    Action::SetStatusMessage(m)
                },
            },
            None => Action::SetFilter(Filter::All),
        },
        Command::Config { key, value } => Action::ConfigAction { key, value },
        Command::Migrate(p) => Action::MigrateData(p),
        Command::Reload => Action::Reload,
        Command::Help => Action::HelpCommand,
        Command::Quit => Action::Quit,
    }
}

impl CommandBar {
    /// A hidden, empty command bar.
    pub fn new() -> (b: Self)
        ensures
            b@ == hidden_bar(),
    {
        CommandBar { visible: false, input: String::new(), cursor_position: 0 }
    }

    /// Empties the text and puts the cursor at its start.
    pub fn clear(&mut self)
        ensures
            final(self)@ == (CommandBarView { input: Seq::<char>::empty(), cursor: 0, ..old(self)@ }),
    {
        self.input = String::new();
        self.cursor_position = 0;
    }

    /// Shows the bar, empty.
    pub fn show(&mut self)
        ensures
            final(self)@ == (CommandBarView { visible: true, input: Seq::<char>::empty(), cursor: 0 }),
    {
        self.visible = true;
        self.clear();
    }

    /// Shows the bar holding `text`, with the cursor at its end.
    pub fn show_with_text(&mut self, text: &str)
        ensures
            final(self)@ == (CommandBarView {
                visible: true,
                input: text@,
                cursor: (utf8_len(text@) % 65536) as u16,
            }),
    {
        self.visible = true;
        self.input = owned(text);
        self.cursor_position = (byte_len(text) % 65536) as u16;
    }

    /// Hides the bar and empties it.
    pub fn hide_bar(&mut self)
        ensures
            final(self)@ == hidden_bar(),
    {
        self.visible = false;
        self.clear();
    }

    /// Handles a key while the bar shows; a hidden bar takes no keys.
    pub fn handle_input(&mut self, event: &KeyEvent) -> (r: Option<Action>)
        requires
            old(self).visible ==> edit_allowed(old(self)@, event.code),
        ensures
            !old(self).visible ==> r is None && final(self)@ == old(self)@,
            old(self).visible ==> (final(self)@, action_view(r)) == bar_step(old(self)@, event.code),
    {
        if !self.visible {
            return None;
        }
        let ghost b = self@;
        match event.code {
            KeyCode::Esc => {
                self.hide_bar();
                None
            },
            KeyCode::Enter => {
                let input = self.input.clone();
                self.hide_bar();
                let t = trim_string(input.as_str());
                if t.as_str().is_empty() {
                    return None;
                }
                match parse(input.as_str()) {
                    Ok(command) => Some(action_for_command(command)),
                    Err(e) => {
                        let mut m = owned("Error: ");
                        let text = e.to_string();
                        append_str(&mut m, text.as_str());
                        Some(Action::SetStatusMessage(m))
                    },
                }
            },
            KeyCode::Backspace => {
                if self.cursor_position > 0 {
                    let pos = (self.cursor_position - 1) as usize;
                    let _ = remove_char(&mut self.input, pos);
                    proof {
                        let k = choose|k: int|
                            0 <= k < b.input.len() && utf8_len(#[trigger] b.input.subrange(0, k)) == pos
                                && self.input@ == b.input.remove(k);
                        lemma_char_at_byte(b.input, pos as int, k);
                    }
                    self.cursor_position = self.cursor_position - 1;
                }
                None
            },
            KeyCode::Delete => {
                let pos = self.cursor_position as usize;
                if pos < byte_len(self.input.as_str()) {
                    let _ = remove_char(&mut self.input, pos);
                    proof {
                        let k = choose|k: int|
                            0 <= k < b.input.len() && utf8_len(#[trigger] b.input.subrange(0, k)) == pos
                                && self.input@ == b.input.remove(k);
                        lemma_char_at_byte(b.input, pos as int, k);
                    }
                }
                None
            },
            KeyCode::Left => {
                if self.cursor_position > 0 {
                    self.cursor_position = self.cursor_position - 1;
                }
                None
            },
            KeyCode::Right => {
                if (self.cursor_position as usize) < byte_len(self.input.as_str()) {
                    self.cursor_position = self.cursor_position + 1;
                }
                None
            },
            KeyCode::Home => {
                self.cursor_position = 0;
                None
            },
            KeyCode::End => {
                self.cursor_position = (byte_len(self.input.as_str()) % 65536) as u16;
                None
            },
            KeyCode::Char(c) => {
                let pos = self.cursor_position as usize;
                insert_char(&mut self.input, pos, c);
                proof {
                    let k = choose|k: int|
                        0 <= k <= b.input.len() && utf8_len(#[trigger] b.input.subrange(0, k)) == pos
                            && self.input@ == b.input.insert(k, c);
                    lemma_char_at_byte(b.input, pos as int, k);
                }
                self.cursor_position = self.cursor_position + 1;
                None
            },
            _ => None,
        }
    }
}

/// Moving the cursor never changes the text and yields no action.
pub proof fn cursor_keys_keep_text(b: CommandBarView, code: KeyCode)
    requires
        code == KeyCode::Left || code == KeyCode::Right || code == KeyCode::Home || code
            == KeyCode::End,
    ensures
        bar_step(b, code).0.input == b.input,
        bar_step(b, code).0.visible == b.visible,
        bar_step(b, code).1 is None,
{
}

/// Escape and Enter both leave the bar hidden and empty.
pub proof fn leaving_empties_bar(b: CommandBarView, code: KeyCode)
    requires
        code == KeyCode::Esc || code == KeyCode::Enter,
    ensures
        bar_step(b, code).0 == hidden_bar(),
{
}

/// Backspace right after typing a character takes it out again: text and cursor are as
/// they were.
pub proof fn backspace_undoes_typing(b: CommandBarView, c: char)
    requires
        at_char_boundary(b.input, b.cursor as int),
        b.cursor < 65535,
    ensures
        edit_allowed(bar_step(b, KeyCode::Char(c)).0, KeyCode::Backspace),
        bar_step(bar_step(b, KeyCode::Char(c)).0, KeyCode::Backspace) == (b, None::<ActionView>),
{
    let k = choose|k: int| 0 <= k <= b.input.len() && utf8_len(#[trigger] b.input.subrange(0, k)) == b.cursor;
    lemma_char_at_byte(b.input, b.cursor as int, k);
    let typed = bar_step(b, KeyCode::Char(c)).0;
    let t = typed.input;
    assert(t == b.input.insert(k, c));
    assert(t.subrange(0, k) =~= b.input.subrange(0, k));
    assert(t.subrange(0, k + 1).drop_last() =~= t.subrange(0, k));
    assert(t[k] == c);
    assert(utf8_len(t.subrange(0, k + 1)) == b.cursor + utf8_width(c));
    crate::text::lemma_utf8_len_prefix(t, k + 1);
    assert(typed.cursor - 1 == b.cursor);
    assert(utf8_len(t.subrange(0, k)) == typed.cursor - 1);
    assert(at_char_boundary(t, typed.cursor - 1));
    lemma_char_at_byte(t, typed.cursor - 1, k);
    assert(t.remove(k) =~= b.input);
}

/// What the bottom line shows: the prompt and the bar's text while the bar shows, else a
/// space and the status message.
pub open spec fn bottom_line(b: CommandBarView, message: Option<Seq<char>>) -> Seq<char> {
    if b.visible {
        ": "@ + b.input
    } else {
        " "@ + match message {
            Some(m) => m,
            None => Seq::<char>::empty(),
        }
    }
}

impl CommandBar {
    /// The text of the bottom line, given the status message.
    pub fn line_text(&self, message: &Option<String>) -> (r: String)
        ensures
            r@ == bottom_line(self@, crate::commands::opt_view(*message)),
    {
        if self.visible {
            let mut r = owned(": ");
            append_str(&mut r, self.input.as_str());
            r
        } else {
            let mut r = owned(" ");
            if let Some(m) = message {
                append_str(&mut r, m.as_str());
            }
            proof {
                reveal_strlit(" ");
                if message is None {
                    assert(r@ =~= " "@ + Seq::<char>::empty());
                }
            }
            r
        }
    }

    /// The column of the cursor when the line starts at column `x`: after the two
    /// columns of the prompt; none while the bar is hidden.
    pub fn cursor_column(&self, x: u16) -> (r: Option<u16>)
        requires
            self.visible ==> x + 2 + self.cursor_position <= u16::MAX,
        ensures
            r == (if self.visible {
                Some((x + 2 + self.cursor_position) as u16)
            } else {
                None::<u16>
            }),
    {
        if self.visible {
            Some(x + 2 + self.cursor_position)
        } else {
            None
        }
    }
}

/// Whether every character of `s` is ASCII.
pub open spec fn all_ascii(s: Seq<char>) -> bool {
    forall|k: int| 0 <= k < s.len() ==> (#[trigger] s[k] as u32) < 128
}

/// ASCII text takes one byte per character.
proof fn lemma_ascii_len(s: Seq<char>)
    requires
        all_ascii(s),
    ensures
        utf8_len(s) == s.len(),
    decreases s.len(),
{
    if s.len() > 0 {
        assert(all_ascii(s.drop_last()));
        lemma_ascii_len(s.drop_last());
        assert((s[s.len() - 1] as u32) < 128);
    }
}

/// In ASCII text every byte offset up to its length falls between characters, at the
/// character of that index.
proof fn lemma_ascii_boundary(s: Seq<char>, b: int)
    requires
        all_ascii(s),
        0 <= b <= s.len(),
    ensures
        at_char_boundary(s, b),
        char_at_byte(s, b) == b,
{
    assert(all_ascii(s.subrange(0, b)));
    lemma_ascii_len(s.subrange(0, b));
    assert(utf8_len(s.subrange(0, b)) == b);
    lemma_char_at_byte(s, b, b);
}

/// A bar holding ASCII text with the cursor inside it can take any key that types an ASCII
/// character or edits, and keeps holding ASCII text with the cursor inside it.
pub proof fn ascii_bar_stays_in_range(b: CommandBarView, code: KeyCode)
    requires
        all_ascii(b.input),
        b.cursor <= b.input.len(),
        b.input.len() < 65535,
        code matches KeyCode::Char(c) ==> (c as u32) < 128,
    ensures
        edit_allowed(b, code),
        all_ascii(bar_step(b, code).0.input),
        bar_step(b, code).0.cursor <= bar_step(b, code).0.input.len(),
{
    lemma_ascii_len(b.input);
    let n = b.input.len();
    let (a, _) = bar_step(b, code);
    match code {
        KeyCode::Backspace => {
            if b.cursor > 0 {
                lemma_ascii_boundary(b.input, b.cursor - 1);
                assert(a.input == b.input.remove(b.cursor - 1));
                assert forall|k: int| 0 <= k < a.input.len() implies (#[trigger] a.input[k] as u32) < 128 by {
                    if k < b.cursor - 1 {
                        assert(a.input[k] == b.input[k]);
                    } else {
                        assert(a.input[k] == b.input[k + 1]);
                    }
                }
            }
        },
        KeyCode::Delete => {
            if b.cursor < n {
                lemma_ascii_boundary(b.input, b.cursor as int);
                assert(a.input == b.input.remove(b.cursor as int));
                assert forall|k: int| 0 <= k < a.input.len() implies (#[trigger] a.input[k] as u32) < 128 by {
                    if k < b.cursor {
                        assert(a.input[k] == b.input[k]);
                    } else {
                        assert(a.input[k] == b.input[k + 1]);
                    }
                }
            }
        },
        KeyCode::Char(c) => {
            lemma_ascii_boundary(b.input, b.cursor as int);
            assert(a.input == b.input.insert(b.cursor as int, c));
            assert forall|k: int| 0 <= k < a.input.len() implies (#[trigger] a.input[k] as u32) < 128 by {
                if k < b.cursor {
                    assert(a.input[k] == b.input[k]);
                } else if k == b.cursor {
                    assert(a.input[k] == c);
                } else {
                    assert(a.input[k] == b.input[k - 1]);
                }
            }
        },
        _ => {},
    }
}

/// Whether byte offset `b` of `s` falls between two characters (or at either end).
fn byte_boundary(s: &str, b: usize) -> (r: bool)
    requires
        b <= 65535,
    ensures
        r == at_char_boundary(s@, b as int),
{
    let v = crate::text::chars_of(s);
    let n = v.len();
    let mut i: usize = 0;
    let mut bytes: usize = 0;
    while i < n && bytes < b
        invariant
            v@ == s@,
            n == v@.len(),
            i <= n,
            b <= 65535,
            bytes == utf8_len(v@.subrange(0, i as int)),
            bytes <= b + 4,
            forall|j: int| 0 <= j < i ==> utf8_len(#[trigger] v@.subrange(0, j)) < b,
        decreases n - i,
    {
        proof {
            assert(v@.subrange(0, i + 1).drop_last() =~= v@.subrange(0, i as int));
        }
        bytes = bytes + crate::text::char_width(v[i]);
        i = i + 1;
    }
    proof {
        if bytes == b {
            assert(utf8_len(s@.subrange(0, i as int)) == b);
        } else {
            assert forall|k: int| 0 <= k <= s@.len() implies utf8_len(#[trigger] s@.subrange(0, k)) != b by {
                if k < i {
                } else if k > i {
                    lemma_prefix_bytes_grow(s@, i as int, k);
                    if bytes < b {
                        assert(i == n);
                    }
                }
            }
        }
    }
    bytes == b
}

impl CommandBar {
    /// Whether the bar can take the key without cutting a character of its text and with
    /// the cursor staying countable: what `handle_input` asks of a shown bar.
    pub fn accepts(&self, code: KeyCode) -> (r: bool)
        ensures
            r == edit_allowed(self@, code),
    {
        let cursor = self.cursor_position as usize;
        let len = byte_len(self.input.as_str());
        match code {
            KeyCode::Backspace => cursor == 0 || (cursor - 1 < len && byte_boundary(self.input.as_str(), cursor - 1)),
            KeyCode::Delete => !(cursor < len) || byte_boundary(self.input.as_str(), cursor),
            KeyCode::Char(_) => byte_boundary(self.input.as_str(), cursor) && self.cursor_position < 65535,
            KeyCode::Right => !(cursor < len) || self.cursor_position < 65535,
            _ => true,
        }
    }
}

/// A command of the settings, entered in the bar, becomes the settings action with the
/// command's key and value unchanged: a value given is a value to store.
pub proof fn config_commands_keep_key_and_value(input: Seq<char>)
    ensures
        parse_result(input) matches Ok(CommandView::Config { key, value }) ==> entered_action(input) == Some(
            ActionView::ConfigAction { key, value },
        ),
{
    if trim(input).len() == 0 {
        assert(crate::commands::parser::tokens_of(input) == Ok::<Seq<Seq<char>>, char>(Seq::empty()));
    }
}

} // verus!
