//! The task list: which row is selected, and which keys do what.

use vstd::prelude::*;

use crate::action::{Action, ActionView};
use crate::config::{KeybindingsConfig, KeybindingsConfigView};
use crate::task::model::Filter;
use crate::task::model::{filter_text, Status, Task};
use crate::text::{
    append_str, at_char_boundary, byte_len, chars_of, decimal, decimal_text, owned, push_char, str_eq,
    string_from, utf8_len, utf8_width,
};
use crate::tui::command_bar::{char_at_byte, lemma_char_at_byte, lemma_prefix_bytes_grow};
use crate::tui::command_bar::action_view;
use crate::tui::{KeyCode, KeyEvent};

verus! {

/// `c` in lower case if it is an ASCII capital letter.
pub open spec fn ascii_lower_char(c: char) -> char {
    if 'A' <= c <= 'Z' {
        ((c as u32) + 32) as char
    } else {
        c
    }
}

/// The names of the named keys, spelled out.
pub proof fn lemma_key_names()
    ensures
        "Enter"@ == seq!['E', 'n', 't', 'e', 'r'],
        "Space"@ == seq!['S', 'p', 'a', 'c', 'e'],
        "Esc"@ == seq!['E', 's', 'c'],
        "Escape"@ == seq!['E', 's', 'c', 'a', 'p', 'e'],
        "Up"@ == seq!['U', 'p'],
        "UpArrow"@ == seq!['U', 'p', 'A', 'r', 'r', 'o', 'w'],
        "Down"@ == seq!['D', 'o', 'w', 'n'],
        "DownArrow"@ == seq!['D', 'o', 'w', 'n', 'A', 'r', 'r', 'o', 'w'],
        "Left"@ == seq!['L', 'e', 'f', 't'],
        "LeftArrow"@ == seq!['L', 'e', 'f', 't', 'A', 'r', 'r', 'o', 'w'],
        "Right"@ == seq!['R', 'i', 'g', 'h', 't'],
        "RightArrow"@ == seq!['R', 'i', 'g', 'h', 't', 'A', 'r', 'r', 'o', 'w'],
{
    reveal_strlit("Enter");
    reveal_strlit("Space");
    reveal_strlit("Esc");
    reveal_strlit("Escape");
    reveal_strlit("Up");
    reveal_strlit("UpArrow");
    reveal_strlit("Down");
    reveal_strlit("DownArrow");
    reveal_strlit("Left");
    reveal_strlit("LeftArrow");
    reveal_strlit("Right");
    reveal_strlit("RightArrow");
}

/// Whether the key press `e` is the key written `key` in the settings: `Ctrl+` and one
/// ASCII character (compared in lower case, with Control held), a named key, or one
/// ASCII character (whatever modifiers are held).
pub open spec fn binding_matches(e: KeyEvent, key: Seq<char>) -> bool {
    if key.len() >= 5 && key.subrange(0, 5) == seq!['C', 't', 'r', 'l', '+'] {
        let ch = key.subrange(5, key.len() as int);
        utf8_len(ch) == 1 && e.code == KeyCode::Char(ascii_lower_char(ch[0])) && e.ctrl
    } else if key == "Enter"@ {
        e.code == KeyCode::Enter
    } else if key == "Space"@ {
        e.code == KeyCode::Char(' ')
    } else if key == "Esc"@ || key == "Escape"@ {
        e.code == KeyCode::Esc
    } else if key == "Up"@ || key == "UpArrow"@ {
        e.code == KeyCode::Up
    } else if key == "Down"@ || key == "DownArrow"@ {
        e.code == KeyCode::Down
    } else if key == "Left"@ || key == "LeftArrow"@ {
        e.code == KeyCode::Left
    } else if key == "Right"@ || key == "RightArrow"@ {
        e.code == KeyCode::Right
    } else {
        utf8_len(key) == 1 && e.code == KeyCode::Char(key[0])
    }
}

/// What a key press does in the list, going through the bindings in order; the arrow
/// keys, Space and `o` work besides the bound keys for moving, toggling and details.
pub open spec fn list_key_action(b: KeybindingsConfigView, e: KeyEvent) -> Option<ActionView> {
    if binding_matches(e, b.move_down) || e.code == KeyCode::Down {
        Some(ActionView::MoveDown)
    } else if binding_matches(e, b.move_up) || e.code == KeyCode::Up {
        Some(ActionView::MoveUp)
    } else if binding_matches(e, b.toggle_done) || e.code == KeyCode::Char(' ') {
        Some(ActionView::ToggleDoneSelected)
    } else if binding_matches(e, b.show_detail) || e.code == KeyCode::Char('o') {
        Some(ActionView::ShowDetailSelected)
    } else if binding_matches(e, b.filter_all) {
        Some(ActionView::SetFilter(Filter::All))
    } else if binding_matches(e, b.filter_todo) {
        Some(ActionView::SetFilter(Filter::Todo))
    } else if binding_matches(e, b.filter_done) {
        Some(ActionView::SetFilter(Filter::Done))
    } else if binding_matches(e, b.new_task) {
        Some(ActionView::NewTaskPrefill)
    } else if binding_matches(e, b.edit_task) {
        Some(ActionView::EditTaskPrefill)
    } else if binding_matches(e, b.delete_task) {
        Some(ActionView::DeleteSelected)
    } else if binding_matches(e, b.open_config) {
        Some(ActionView::OpenConfig)
    } else if binding_matches(e, b.command_bar) {
        Some(ActionView::ToggleCommandBar)
    } else if binding_matches(e, b.help) {
        Some(ActionView::HelpCommand)
    } else if binding_matches(e, b.reload) {
        Some(ActionView::Reload)
    } else if binding_matches(e, b.quit) {
        Some(ActionView::Quit)
    } else {
        None
    }
}

/// A text of one byte is one ASCII character.
proof fn lemma_one_byte(s: Seq<char>)
    requires
        utf8_len(s) == 1,
    ensures
        s.len() == 1,
{
    if s.len() > 1 {
        crate::text::lemma_utf8_len_first(s);
        crate::text::lemma_utf8_len_first(s.drop_first());
    } else if s.len() == 0 {
    }
}

/// The list's selection and scroll, and the key bindings it answers to.
pub struct TaskList {
    pub selected_index: usize,
    pub scroll_offset: usize,
    pub bindings: KeybindingsConfig,
}

impl TaskList {
    /// A list with its first row selected, answering to `bindings`.
    pub fn new(bindings: KeybindingsConfig) -> (l: Self)
        ensures
            l.selected_index == 0,
            l.scroll_offset == 0,
            l.bindings@ == bindings@,
    {
        TaskList { selected_index: 0, scroll_offset: 0, bindings }
    }

    /// Answers to other key bindings from now on.
    pub fn update_bindings(&mut self, bindings: KeybindingsConfig)
        ensures
            final(self).bindings@ == bindings@,
            final(self).selected_index == old(self).selected_index,
            final(self).scroll_offset == old(self).scroll_offset,
    {
        self.bindings = bindings;
    }

    /// Keeps the selection on a row of a list of `max_len` rows: the last one if it was
    /// past the end, the top (and no scroll) for an empty list.
    pub fn clamp_selection(&mut self, max_len: usize)
        ensures
            max_len == 0 ==> final(self).selected_index == 0 && final(self).scroll_offset == 0,
            max_len > 0 ==> final(self).selected_index == (if old(self).selected_index < max_len {
                old(self).selected_index
            } else {
                (max_len - 1) as usize
            }) && final(self).scroll_offset == old(self).scroll_offset,
            final(self).bindings@ == old(self).bindings@,
    {
        if max_len == 0 {
            self.selected_index = 0;
            self.scroll_offset = 0;
            return;
        }
        if self.selected_index >= max_len {
            self.selected_index = max_len - 1;
        }
    }

    /// Whether the key press is the key written `key`.
    fn binding(&self, event: &KeyEvent, key: &str) -> (r: bool)
        ensures
            r == binding_matches(*event, key@),
    {
        proof {
            lemma_key_names();
        }
        let v = chars_of(key);
        let n = v.len();
        if n >= 5 && v[0] == 'C' && v[1] == 't' && v[2] == 'r' && v[3] == 'l' && v[4] == '+' {
            proof {
                assert(key@.subrange(0, 5) =~= seq!['C', 't', 'r', 'l', '+']);
            }
            let ghost ch = key@.subrange(5, key@.len() as int);
            let mut bytes: usize = 0;
            let mut i: usize = 5;
            while i < n && bytes <= 1
                invariant
                    5 <= i <= n == v@.len(),
                    v@ == key@,
                    ch == key@.subrange(5, n as int),
                    bytes == utf8_len(v@.subrange(5, i as int)),
                decreases n - i,
            {
                proof {
                    assert(v@.subrange(5, i + 1).drop_last() =~= v@.subrange(5, i as int));
                }
                bytes = bytes + crate::text::char_width(v[i]);
                i = i + 1;
            }
            proof {
                if i < n {
                    crate::text::lemma_utf8_len_prefix(ch, i - 5);
                    assert(ch.subrange(0, i - 5) =~= v@.subrange(5, i as int));
                } else {
                    assert(ch =~= v@.subrange(5, i as int));
                }
            }
            if i == n && bytes == 1 {
                proof {
                    lemma_one_byte(ch);
                }
                let c = v[5];
                let lower = if 'A' <= c && c <= 'Z' {
                    ((c as u8) + 32) as char
                } else {
                    c
                };
                return event.code == KeyCode::Char(lower) && event.ctrl;
            }
            return false;
        }
        proof {
            if key@.len() >= 5 && key@.subrange(0, 5) == seq!['C', 't', 'r', 'l', '+'] {
                assert(key@.subrange(0, 5)[0] == 'C');
                assert(key@.subrange(0, 5)[1] == 't');
                assert(key@.subrange(0, 5)[2] == 'r');
                assert(key@.subrange(0, 5)[3] == 'l');
                assert(key@.subrange(0, 5)[4] == '+');
            }
        }
        if str_eq(key, "Enter") {
            event.code == KeyCode::Enter
        } else if str_eq(key, "Space") {
            event.code == KeyCode::Char(' ')
        } else if str_eq(key, "Esc") || str_eq(key, "Escape") {
            event.code == KeyCode::Esc
        } else if str_eq(key, "Up") || str_eq(key, "UpArrow") {
            event.code == KeyCode::Up
        } else if str_eq(key, "Down") || str_eq(key, "DownArrow") {
            event.code == KeyCode::Down
        } else if str_eq(key, "Left") || str_eq(key, "LeftArrow") {
            event.code == KeyCode::Left
        } else if str_eq(key, "Right") || str_eq(key, "RightArrow") {
            event.code == KeyCode::Right
        } else if byte_len(key) == 1 {
            proof {
                lemma_one_byte(key@);
            }
            event.code == KeyCode::Char(v[0])
        } else {
            false
        }
    }

    /// The action of a key press in the list, if the key does anything there.
    pub fn handle_input(&self, event: &KeyEvent) -> (r: Option<Action>)
        ensures
            action_view(r) == list_key_action(self.bindings@, *event),
    {
        let b = &self.bindings;
        if self.binding(event, b.move_down.as_str()) || event.code == KeyCode::Down {
            return Some(Action::MoveDown);
        }
        if self.binding(event, b.move_up.as_str()) || event.code == KeyCode::Up {
            return Some(Action::MoveUp);
        }
        if self.binding(event, b.toggle_done.as_str()) || event.code == KeyCode::Char(' ') {
            return Some(Action::ToggleDoneSelected);
        }
        if self.binding(event, b.show_detail.as_str()) || event.code == KeyCode::Char('o') {
            return Some(Action::ShowDetailSelected);
        }
        if self.binding(event, b.filter_all.as_str()) {
            return Some(Action::SetFilter(Filter::All));
        }
        if self.binding(event, b.filter_todo.as_str()) {
            return Some(Action::SetFilter(Filter::Todo));
        }
        if self.binding(event, b.filter_done.as_str()) {
            return Some(Action::SetFilter(Filter::Done));
        }
        if self.binding(event, b.new_task.as_str()) {
            return Some(Action::NewTaskPrefill);
        }
        if self.binding(event, b.edit_task.as_str()) {
            return Some(Action::EditTaskPrefill);
        }
        if self.binding(event, b.delete_task.as_str()) {
            return Some(Action::DeleteSelected);
        }
        if self.binding(event, b.open_config.as_str()) {
            return Some(Action::OpenConfig);
        }
        if self.binding(event, b.command_bar.as_str()) {
            return Some(Action::ToggleCommandBar);
        }
        if self.binding(event, b.help.as_str()) {
            return Some(Action::HelpCommand);
        }
        if self.binding(event, b.reload.as_str()) {
            return Some(Action::Reload);
        }
        if self.binding(event, b.quit.as_str()) {
            return Some(Action::Quit);
        }
        None
    }
}

/// How many of the tasks are done.
pub open spec fn done_count(s: Seq<Task>) -> nat
    decreases s.len(),
{
    if s.len() == 0 {
        0
    } else {
        done_count(s.drop_last()) + if s.last().status == Status::Done {
            1nat
        } else {
            0nat
        }
    }
}

/// The title of the list's frame: how many tasks are done of how many, and the filter.
pub open spec fn heading_text(tasks: Seq<Task>, filter: crate::task::model::Filter) -> Seq<char> {
    " EasyTodo  ["@ + decimal_text(done_count(tasks)) + "/"@ + decimal_text(tasks.len()) + "] ["@
        + filter_text(filter) + "]"@
}

/// The title of the list's frame.
pub fn list_heading(tasks: &Vec<Task>, filter: crate::task::model::Filter) -> (r: String)
    ensures
        r@ == heading_text(tasks@, filter),
{
    let n = tasks.len();
    let mut done: usize = 0;
    let mut i: usize = 0;
    while i < n
        invariant
            i <= n == tasks@.len(),
            done == done_count(tasks@.subrange(0, i as int)),
            done <= i,
        decreases n - i,
    {
        proof {
            assert(tasks@.subrange(0, i + 1).drop_last() =~= tasks@.subrange(0, i as int));
        }
        if tasks[i].status == Status::Done {
            done = done + 1;
        }
        i = i + 1;
    }
    proof {
        assert(tasks@.subrange(0, n as int) =~= tasks@);
    }
    let mut r = owned(" EasyTodo  [");
    append_str(&mut r, decimal(done).as_str());
    append_str(&mut r, "/");
    append_str(&mut r, decimal(n).as_str());
    append_str(&mut r, "] [");
    append_str(&mut r, filter.to_string().as_str());
    append_str(&mut r, "]");
    r
}

/// The first row shown when `height` rows fit: the old one, moved just enough to show
/// the selected row.
pub open spec fn window_start_spec(selected: usize, scroll: usize, height: usize) -> int {
    if selected < scroll {
        selected as int
    } else if selected >= scroll + height {
        selected - height + 1
    } else {
        scroll as int
    }
}

/// The title shown in a row `max_width` bytes wide: whole if its byte length (counted in
/// 16 bits) fits, else cut one byte short of the width and ended with an ellipsis.
pub open spec fn fitted_title_spec(title: Seq<char>, max_width: u16) -> Seq<char> {
    if utf8_len(title) % 65536 > max_width {
        let cut = if max_width > 0 {
            max_width - 1
        } else {
            0
        };
        title.subrange(0, char_at_byte(title, cut)) + seq!['\u{2026}']
    } else {
        title
    }
}

/// Whether `fitted_title` can cut `title` between two characters.
pub open spec fn title_cut_allowed(title: Seq<char>, max_width: u16) -> bool {
    utf8_len(title) % 65536 > max_width ==> at_char_boundary(
        title,
        if max_width > 0 {
            max_width - 1
        } else {
            0
        },
    )
}

/// The title shown in a row `max_width` bytes wide.
pub fn fitted_title(title: &str, max_width: u16) -> (r: String)
    requires
        title_cut_allowed(title@, max_width),
    ensures
        r@ == fitted_title_spec(title@, max_width),
{
    let len = (byte_len(title) % 65536) as u16;
    if len > max_width {
        let cut: usize = if max_width > 0 {
            (max_width - 1) as usize
        } else {
            0
        };
        let v = chars_of(title);
        let ghost k = choose|k: int| 0 <= k <= title@.len() && utf8_len(#[trigger] title@.subrange(0, k)) == cut;
        let n = v.len();
        let mut bytes: usize = 0;
        let mut i: usize = 0;
        while bytes < cut
            invariant
                v@ == title@,
                n == v@.len(),
                0 <= k <= v@.len(),
                utf8_len(v@.subrange(0, k)) == cut,
                i <= k,
                bytes == utf8_len(v@.subrange(0, i as int)),
                bytes <= cut,
            decreases cut - bytes,
        {
            proof {
                if i == k {
                    assert(false);
                }
                assert(v@.subrange(0, i + 1).drop_last() =~= v@.subrange(0, i as int));
                if i + 1 < k {
                    lemma_prefix_bytes_grow(v@, i + 1, k);
                }
            }
            bytes = bytes + crate::text::char_width(v[i]);
            i = i + 1;
        }
        proof {
            if i < k {
                lemma_prefix_bytes_grow(v@, i as int, k);
            }
            lemma_char_at_byte(title@, cut as int, k);
        }
        let mut r = string_from(&v, 0, i);
        push_char(&mut r, '\u{2026}');
        r
    } else {
        owned(title)
    }
}

impl TaskList {
    /// The first row shown when `visible_height` rows fit, keeping the selection in view.
    pub fn window_start(&self, visible_height: usize) -> (r: usize)
        requires
            self.scroll_offset + visible_height <= usize::MAX,
            visible_height == 0 ==> self.selected_index < usize::MAX,
        ensures
            r == window_start_spec(self.selected_index, self.scroll_offset, visible_height),
    {
        let selected = self.selected_index;
        let scroll = self.scroll_offset;
        if selected < scroll {
            selected
        } else if selected >= scroll + visible_height {
            selected - visible_height + 1
        } else {
            scroll
        }
    }
}

/// The columns left for a task's title in a row `width` wide: the checkbox takes four,
/// a due date twelve, and one stays free.
pub open spec fn title_room(width: u16, has_date: bool) -> u16 {
    let used: int = 4 + (if has_date {
        12int
    } else {
        0int
    }) + 1;
    if width >= used {
        (width - used) as u16
    } else {
        0
    }
}

/// The title shown in a row `width` wide, and the spaces that follow it up to the room
/// for the title (its byte length counted in 16 bits).
pub open spec fn row_title_spec(title: Seq<char>, width: u16, has_date: bool) -> (Seq<char>, u16) {
    let room = title_room(width, has_date);
    let shown = fitted_title_spec(title, room);
    let len = utf8_len(shown) % 65536;
    (shown, if room >= len {
        (room - len) as u16
    } else {
        0
    })
}

/// The columns left for a task's title in a row `width` wide.
pub fn title_room_of(width: u16, has_date: bool) -> (r: u16)
    ensures
        r == title_room(width, has_date),
{
    let used: u16 = if has_date {
        17
    } else {
        5
    };
    if width >= used {
        width - used
    } else {
        0
    }
}

/// The title of a row `width` wide, and the spaces after it; `has_date` says whether the
/// row ends with a due date.
pub fn row_title(title: &str, width: u16, has_date: bool) -> (r: (String, u16))
    requires
        title_cut_allowed(title@, title_room(width, has_date)),
    ensures
        (r.0@, r.1) == row_title_spec(title@, width, has_date),
{
    let room = title_room_of(width, has_date);
    let shown = fitted_title(title, room);
    let len = (byte_len(shown.as_str()) % 65536) as u16;
    let padding = if room >= len {
        room - len
    } else {
        0
    };
    (shown, padding)
}

/// The checkbox of a row: ticked for a finished task.
pub fn checkbox(status: Status) -> (r: &'static str)
    ensures
        r@ == (if status == Status::Done {
            "[x]"@
        } else {
            "[ ]"@
        }),
{
    if status == Status::Done {
        "[x]"
    } else {
        "[ ]"
    }
}

} // verus!
