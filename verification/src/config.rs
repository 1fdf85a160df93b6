//! The user's settings: where tasks live, the editor, colours and keys.

use vstd::prelude::*;

use crate::commands::opt_view;
use crate::errors::{AppError, AppErrorView};
use crate::paths::{expand_home, expanded_path, home_cut_allowed};
use crate::text::{
    append_str, char_width, chars_of, find_char, owned, str_eq, string_from, trim, trim_bounds,
    utf8_len, at_char_boundary, lemma_utf8_len_prefix, lemma_find_shift,
};

verus! {

/// The colours of the interface, each written `rgb(R,G,B)` or `#RRGGBB`.
#[derive(Debug, Clone)]
pub struct ThemeConfig {
    pub selected_bg: String,
    pub done_fg: String,
    pub border: String,
    pub command_bar_bg: String,
    pub modal_bg: String,
    pub title_fg: String,
    pub normal_bg: String,
    pub status_bar_fg: String,
}

/// The fields of a `ThemeConfig` as character sequences.
pub struct ThemeConfigView {
    pub selected_bg: Seq<char>,
    pub done_fg: Seq<char>,
    pub border: Seq<char>,
    pub command_bar_bg: Seq<char>,
    pub modal_bg: Seq<char>,
    pub title_fg: Seq<char>,
    pub normal_bg: Seq<char>,
    pub status_bar_fg: Seq<char>,
}

impl View for ThemeConfig {
    type V = ThemeConfigView;

    open spec fn view(&self) -> ThemeConfigView {
        ThemeConfigView {
            selected_bg: self.selected_bg@,
            done_fg: self.done_fg@,
            border: self.border@,
            command_bar_bg: self.command_bar_bg@,
            modal_bg: self.modal_bg@,
            title_fg: self.title_fg@,
            normal_bg: self.normal_bg@,
            status_bar_fg: self.status_bar_fg@,
        }
    }
}

fn default_selected_bg() -> (r: String)
    ensures
        r@ == "rgb(60,60,80)"@,
{
    owned("rgb(60,60,80)")
}

fn default_done_fg() -> (r: String)
    ensures
        r@ == "rgb(100,140,100)"@,
{
    owned("rgb(100,140,100)")
}

fn default_border() -> (r: String)
    ensures
        r@ == "rgb(80,80,120)"@,
{
    owned("rgb(80,80,120)")
}

fn default_command_bar_bg() -> (r: String)
    ensures
        r@ == "rgb(30,30,50)"@,
{
    owned("rgb(30,30,50)")
}

fn default_modal_bg() -> (r: String)
    ensures
        r@ == "rgb(25,25,45)"@,
{
    owned("rgb(25,25,45)")
}

fn default_title_fg() -> (r: String)
    ensures
        r@ == "rgb(180,180,220)"@,
{
    owned("rgb(180,180,220)")
}

fn default_normal_bg() -> (r: String)
    ensures
        r@ == "rgb(20,20,35)"@,
{
    owned("rgb(20,20,35)")
}

fn default_status_bar_fg() -> (r: String)
    ensures
        r@ == "rgb(130,130,160)"@,
{
    owned("rgb(130,130,160)")
}

impl ThemeConfigView {
    /// The values a `ThemeConfig` starts with.
    pub open spec fn defaults() -> ThemeConfigView {
        ThemeConfigView {
            selected_bg: "rgb(60,60,80)"@,
            done_fg: "rgb(100,140,100)"@,
            border: "rgb(80,80,120)"@,
            command_bar_bg: "rgb(30,30,50)"@,
            modal_bg: "rgb(25,25,45)"@,
            title_fg: "rgb(180,180,220)"@,
            normal_bg: "rgb(20,20,35)"@,
            status_bar_fg: "rgb(130,130,160)"@,
        }
    }

    /// The value stored under `key`, if `key` names a field.
    pub open spec fn get_spec(self, key: Seq<char>) -> Option<Seq<char>> {
        if key == "selected_bg"@ {
            Some(self.selected_bg)
        } else if key == "done_fg"@ {
            Some(self.done_fg)
        } else if key == "border"@ {
            Some(self.border)
        } else if key == "command_bar_bg"@ {
            Some(self.command_bar_bg)
        } else if key == "modal_bg"@ {
            Some(self.modal_bg)
        } else if key == "title_fg"@ {
            Some(self.title_fg)
        } else if key == "normal_bg"@ {
            Some(self.normal_bg)
        } else if key == "status_bar_fg"@ {
            Some(self.status_bar_fg)
        } else {
            None
        }
    }


    /// The value with the field named `key` set to `value`, if `key` names a field.
    pub open spec fn set_spec(self, key: Seq<char>, value: Seq<char>) -> Option<ThemeConfigView> {
        if key == "selected_bg"@ {
            Some(ThemeConfigView { selected_bg: value, ..self })
        } else if key == "done_fg"@ {
            Some(ThemeConfigView { done_fg: value, ..self })
        } else if key == "border"@ {
            Some(ThemeConfigView { border: value, ..self })
        } else if key == "command_bar_bg"@ {
            Some(ThemeConfigView { command_bar_bg: value, ..self })
        } else if key == "modal_bg"@ {
            Some(ThemeConfigView { modal_bg: value, ..self })
        } else if key == "title_fg"@ {
            Some(ThemeConfigView { title_fg: value, ..self })
        } else if key == "normal_bg"@ {
            Some(ThemeConfigView { normal_bg: value, ..self })
        } else if key == "status_bar_fg"@ {
            Some(ThemeConfigView { status_bar_fg: value, ..self })
        } else {
            None
        }
    }
}

/// The names of the fields of a `ThemeConfig`, spelled out.
pub proof fn lemma_theme_keys()
    ensures
        "selected_bg"@ == seq!['s', 'e', 'l', 'e', 'c', 't', 'e', 'd', '_', 'b', 'g'],
        "done_fg"@ == seq!['d', 'o', 'n', 'e', '_', 'f', 'g'],
        "border"@ == seq!['b', 'o', 'r', 'd', 'e', 'r'],
        "command_bar_bg"@ == seq!['c', 'o', 'm', 'm', 'a', 'n', 'd', '_', 'b', 'a', 'r', '_', 'b', 'g'],
        "modal_bg"@ == seq!['m', 'o', 'd', 'a', 'l', '_', 'b', 'g'],
        "title_fg"@ == seq!['t', 'i', 't', 'l', 'e', '_', 'f', 'g'],
        "normal_bg"@ == seq!['n', 'o', 'r', 'm', 'a', 'l', '_', 'b', 'g'],
        "status_bar_fg"@ == seq!['s', 't', 'a', 't', 'u', 's', '_', 'b', 'a', 'r', '_', 'f', 'g'],
{
    reveal_strlit("selected_bg");
    reveal_strlit("done_fg");
    reveal_strlit("border");
    reveal_strlit("command_bar_bg");
    reveal_strlit("modal_bg");
    reveal_strlit("title_fg");
    reveal_strlit("normal_bg");
    reveal_strlit("status_bar_fg");
}

impl Default for ThemeConfig {
    fn default() -> (r: Self)
        ensures
            r@ == ThemeConfigView::defaults(),
    {
        ThemeConfig {
            selected_bg: default_selected_bg(),
            done_fg: default_done_fg(),
            border: default_border(),
            command_bar_bg: default_command_bar_bg(),
            modal_bg: default_modal_bg(),
            title_fg: default_title_fg(),
            normal_bg: default_normal_bg(),
            status_bar_fg: default_status_bar_fg(),
        }
    }
}

impl ThemeConfig {
    /// The value stored under `key`.
    fn get(&self, key: &str) -> (r: Option<String>)
        ensures
            opt_view(r) == self@.get_spec(key@),
    {
        proof {
            lemma_theme_keys();
        }
        if str_eq(key, "selected_bg") {
            Some(self.selected_bg.clone())
        } else if str_eq(key, "done_fg") {
            Some(self.done_fg.clone())
        } else if str_eq(key, "border") {
            Some(self.border.clone())
        } else if str_eq(key, "command_bar_bg") {
            Some(self.command_bar_bg.clone())
        } else if str_eq(key, "modal_bg") {
            Some(self.modal_bg.clone())
        } else if str_eq(key, "title_fg") {
            Some(self.title_fg.clone())
        } else if str_eq(key, "normal_bg") {
            Some(self.normal_bg.clone())
        } else if str_eq(key, "status_bar_fg") {
            Some(self.status_bar_fg.clone())
        } else {
            None
        }
    }

    /// Stores `value` under `key`; a key that names no field is an error.
    fn set(&mut self, key: &str, value: &str) -> (r: Result<(), AppError>)
        ensures
            match r {
                Ok(_) => old(self)@.set_spec(key@, value@) == Some(final(self)@),
                Err(e) => old(self)@.set_spec(key@, value@) is None && final(self)@ == old(self)@
                    && e@ == AppErrorView::Config("Unknown theme key: '"@ + key@ + "'"@),
            },
    {
        proof {
            lemma_theme_keys();
        }
        if str_eq(key, "selected_bg") {
            self.selected_bg = owned(value);
        } else if str_eq(key, "done_fg") {
            self.done_fg = owned(value);
        } else if str_eq(key, "border") {
            self.border = owned(value);
        } else if str_eq(key, "command_bar_bg") {
            self.command_bar_bg = owned(value);
        } else if str_eq(key, "modal_bg") {
            self.modal_bg = owned(value);
        } else if str_eq(key, "title_fg") {
            self.title_fg = owned(value);
        } else if str_eq(key, "normal_bg") {
            self.normal_bg = owned(value);
        } else if str_eq(key, "status_bar_fg") {
            self.status_bar_fg = owned(value);
        } else {
            let mut m = owned("Unknown theme key: '");
            append_str(&mut m, key);
            append_str(&mut m, "'");
            return Err(AppError::Config(m));
        }
        Ok(())
    }
}

/// The key that triggers each action: one character, a named key, or `Ctrl+` and a letter.
#[derive(Debug, Clone)]
pub struct KeybindingsConfig {
    pub move_down: String,
    pub move_up: String,
    pub toggle_done: String,
    pub show_detail: String,
    pub filter_all: String,
    pub filter_todo: String,
    pub filter_done: String,
    pub new_task: String,
    pub edit_task: String,
    pub delete_task: String,
    pub open_config: String,
    pub command_bar: String,
    pub help: String,
    pub reload: String,
    pub quit: String,
}

/// The fields of a `KeybindingsConfig` as character sequences.
pub struct KeybindingsConfigView {
    pub move_down: Seq<char>,
    pub move_up: Seq<char>,
    pub toggle_done: Seq<char>,
    pub show_detail: Seq<char>,
    pub filter_all: Seq<char>,
    pub filter_todo: Seq<char>,
    pub filter_done: Seq<char>,
    pub new_task: Seq<char>,
    pub edit_task: Seq<char>,
    pub delete_task: Seq<char>,
    pub open_config: Seq<char>,
    pub command_bar: Seq<char>,
    pub help: Seq<char>,
    pub reload: Seq<char>,
    pub quit: Seq<char>,
}

impl View for KeybindingsConfig {
    type V = KeybindingsConfigView;

    open spec fn view(&self) -> KeybindingsConfigView {
        KeybindingsConfigView {
            move_down: self.move_down@,
            move_up: self.move_up@,
            toggle_done: self.toggle_done@,
            show_detail: self.show_detail@,
            filter_all: self.filter_all@,
            filter_todo: self.filter_todo@,
            filter_done: self.filter_done@,
            new_task: self.new_task@,
            edit_task: self.edit_task@,
            delete_task: self.delete_task@,
            open_config: self.open_config@,
            command_bar: self.command_bar@,
            help: self.help@,
            reload: self.reload@,
            quit: self.quit@,
        }
    }
}

fn default_move_down() -> (r: String)
    ensures
        r@ == "j"@,
{
    owned("j")
}

fn default_move_up() -> (r: String)
    ensures
        r@ == "k"@,
{
    owned("k")
}

fn default_toggle_done() -> (r: String)
    ensures
        r@ == "Enter"@,
{
    owned("Enter")
}

fn default_show_detail() -> (r: String)
    ensures
        r@ == "l"@,
{
    owned("l")
}

fn default_filter_all() -> (r: String)
    ensures
        r@ == "1"@,
{
    owned("1")
}

fn default_filter_todo() -> (r: String)
    ensures
        r@ == "2"@,
{
    owned("2")
}

fn default_filter_done() -> (r: String)
    ensures
        r@ == "3"@,
{
    owned("3")
}

fn default_new_task() -> (r: String)
    ensures
        r@ == "Ctrl+N"@,
{
    owned("Ctrl+N")
}

fn default_edit_task() -> (r: String)
    ensures
        r@ == "Ctrl+E"@,
{
    owned("Ctrl+E")
}

fn default_delete_task() -> (r: String)
    ensures
        r@ == "Ctrl+D"@,
{
    owned("Ctrl+D")
}

fn default_open_config() -> (r: String)
    ensures
        r@ == "Ctrl+B"@,
{
    owned("Ctrl+B")
}

fn default_command_bar() -> (r: String)
    ensures
        r@ == "Ctrl+P"@,
{
    owned("Ctrl+P")
}

fn default_help() -> (r: String)
    ensures
        r@ == "Ctrl+H"@,
{
    owned("Ctrl+H")
}

fn default_reload() -> (r: String)
    ensures
        r@ == "Ctrl+R"@,
{
    owned("Ctrl+R")
}

fn default_quit() -> (r: String)
    ensures
        r@ == "Ctrl+Q"@,
{
    owned("Ctrl+Q")
}

impl KeybindingsConfigView {
    /// The values a `KeybindingsConfig` starts with.
    pub open spec fn defaults() -> KeybindingsConfigView {
        KeybindingsConfigView {
            move_down: "j"@,
            move_up: "k"@,
            toggle_done: "Enter"@,
            show_detail: "l"@,
            filter_all: "1"@,
            filter_todo: "2"@,
            filter_done: "3"@,
            new_task: "Ctrl+N"@,
            edit_task: "Ctrl+E"@,
            delete_task: "Ctrl+D"@,
            open_config: "Ctrl+B"@,
            command_bar: "Ctrl+P"@,
            help: "Ctrl+H"@,
            reload: "Ctrl+R"@,
            quit: "Ctrl+Q"@,
        }
    }

    /// The value stored under `key`, if `key` names a field.
    pub open spec fn get_spec(self, key: Seq<char>) -> Option<Seq<char>> {
        if key == "move_down"@ {
            Some(self.move_down)
        } else if key == "move_up"@ {
            Some(self.move_up)
        } else if key == "toggle_done"@ {
            Some(self.toggle_done)
        } else if key == "show_detail"@ {
            Some(self.show_detail)
        } else if key == "filter_all"@ {
            Some(self.filter_all)
        } else if key == "filter_todo"@ {
            Some(self.filter_todo)
        } else if key == "filter_done"@ {
            Some(self.filter_done)
        } else if key == "new_task"@ {
            Some(self.new_task)
        } else if key == "edit_task"@ {
            Some(self.edit_task)
        } else if key == "delete_task"@ {
            Some(self.delete_task)
        } else if key == "open_config"@ {
            Some(self.open_config)
        } else if key == "command_bar"@ {
            Some(self.command_bar)
        } else if key == "help"@ {
            Some(self.help)
        } else if key == "reload"@ {
            Some(self.reload)
        } else if key == "quit"@ {
            Some(self.quit)
        } else {
            None
        }
    }


    /// The value with the field named `key` set to `value`, if `key` names a field.
    pub open spec fn set_spec(self, key: Seq<char>, value: Seq<char>) -> Option<KeybindingsConfigView> {
        if key == "move_down"@ {
            Some(KeybindingsConfigView { move_down: value, ..self })
        } else if key == "move_up"@ {
            Some(KeybindingsConfigView { move_up: value, ..self })
        } else if key == "toggle_done"@ {
            Some(KeybindingsConfigView { toggle_done: value, ..self })
        } else if key == "show_detail"@ {
            Some(KeybindingsConfigView { show_detail: value, ..self })
        } else if key == "filter_all"@ {
            Some(KeybindingsConfigView { filter_all: value, ..self })
        } else if key == "filter_todo"@ {
            Some(KeybindingsConfigView { filter_todo: value, ..self })
        } else if key == "filter_done"@ {
            Some(KeybindingsConfigView { filter_done: value, ..self })
        } else if key == "new_task"@ {
            Some(KeybindingsConfigView { new_task: value, ..self })
        } else if key == "edit_task"@ {
            Some(KeybindingsConfigView { edit_task: value, ..self })
        } else if key == "delete_task"@ {
            Some(KeybindingsConfigView { delete_task: value, ..self })
        } else if key == "open_config"@ {
            Some(KeybindingsConfigView { open_config: value, ..self })
        } else if key == "command_bar"@ {
            Some(KeybindingsConfigView { command_bar: value, ..self })
        } else if key == "help"@ {
            Some(KeybindingsConfigView { help: value, ..self })
        } else if key == "reload"@ {
            Some(KeybindingsConfigView { reload: value, ..self })
        } else if key == "quit"@ {
            Some(KeybindingsConfigView { quit: value, ..self })
        } else {
            None
        }
    }
}

/// The names of the fields of a `KeybindingsConfig`, spelled out.
pub proof fn lemma_keybindings_keys()
    ensures
        "move_down"@ == seq!['m', 'o', 'v', 'e', '_', 'd', 'o', 'w', 'n'],
        "move_up"@ == seq!['m', 'o', 'v', 'e', '_', 'u', 'p'],
        "toggle_done"@ == seq!['t', 'o', 'g', 'g', 'l', 'e', '_', 'd', 'o', 'n', 'e'],
        "show_detail"@ == seq!['s', 'h', 'o', 'w', '_', 'd', 'e', 't', 'a', 'i', 'l'],
        "filter_all"@ == seq!['f', 'i', 'l', 't', 'e', 'r', '_', 'a', 'l', 'l'],
        "filter_todo"@ == seq!['f', 'i', 'l', 't', 'e', 'r', '_', 't', 'o', 'd', 'o'],
        "filter_done"@ == seq!['f', 'i', 'l', 't', 'e', 'r', '_', 'd', 'o', 'n', 'e'],
        "new_task"@ == seq!['n', 'e', 'w', '_', 't', 'a', 's', 'k'],
        "edit_task"@ == seq!['e', 'd', 'i', 't', '_', 't', 'a', 's', 'k'],
        "delete_task"@ == seq!['d', 'e', 'l', 'e', 't', 'e', '_', 't', 'a', 's', 'k'],
        "open_config"@ == seq!['o', 'p', 'e', 'n', '_', 'c', 'o', 'n', 'f', 'i', 'g'],
        "command_bar"@ == seq!['c', 'o', 'm', 'm', 'a', 'n', 'd', '_', 'b', 'a', 'r'],
        "help"@ == seq!['h', 'e', 'l', 'p'],
        "reload"@ == seq!['r', 'e', 'l', 'o', 'a', 'd'],
        "quit"@ == seq!['q', 'u', 'i', 't'],
{
    reveal_strlit("move_down");
    reveal_strlit("move_up");
    reveal_strlit("toggle_done");
    reveal_strlit("show_detail");
    reveal_strlit("filter_all");
    reveal_strlit("filter_todo");
    reveal_strlit("filter_done");
    reveal_strlit("new_task");
    reveal_strlit("edit_task");
    reveal_strlit("delete_task");
    reveal_strlit("open_config");
    reveal_strlit("command_bar");
    reveal_strlit("help");
    reveal_strlit("reload");
    reveal_strlit("quit");
}

impl Default for KeybindingsConfig {
    fn default() -> (r: Self)
        ensures
            r@ == KeybindingsConfigView::defaults(),
    {
        KeybindingsConfig {
            move_down: default_move_down(),
            move_up: default_move_up(),
            toggle_done: default_toggle_done(),
            show_detail: default_show_detail(),
            filter_all: default_filter_all(),
            filter_todo: default_filter_todo(),
            filter_done: default_filter_done(),
            new_task: default_new_task(),
            edit_task: default_edit_task(),
            delete_task: default_delete_task(),
            open_config: default_open_config(),
            command_bar: default_command_bar(),
            help: default_help(),
            reload: default_reload(),
            quit: default_quit(),
        }
    }
}

impl KeybindingsConfig {
    /// The value stored under `key`.
    fn get(&self, key: &str) -> (r: Option<String>)
        ensures
            opt_view(r) == self@.get_spec(key@),
    {
        proof {
            lemma_keybindings_keys();
        }
        if str_eq(key, "move_down") {
            Some(self.move_down.clone())
        } else if str_eq(key, "move_up") {
            Some(self.move_up.clone())
        } else if str_eq(key, "toggle_done") {
            Some(self.toggle_done.clone())
        } else if str_eq(key, "show_detail") {
            Some(self.show_detail.clone())
        } else if str_eq(key, "filter_all") {
            Some(self.filter_all.clone())
        } else if str_eq(key, "filter_todo") {
            Some(self.filter_todo.clone())
        } else if str_eq(key, "filter_done") {
            Some(self.filter_done.clone())
        } else if str_eq(key, "new_task") {
            Some(self.new_task.clone())
        } else if str_eq(key, "edit_task") {
            Some(self.edit_task.clone())
        } else if str_eq(key, "delete_task") {
            Some(self.delete_task.clone())
        } else if str_eq(key, "open_config") {
            Some(self.open_config.clone())
        } else if str_eq(key, "command_bar") {
            Some(self.command_bar.clone())
        } else if str_eq(key, "help") {
            Some(self.help.clone())
        } else if str_eq(key, "reload") {
            Some(self.reload.clone())
        } else if str_eq(key, "quit") {
            Some(self.quit.clone())
        } else {
            None
        }
    }

    /// Stores `value` under `key`; a key that names no field is an error.
    fn set(&mut self, key: &str, value: &str) -> (r: Result<(), AppError>)
        ensures
            match r {
                Ok(_) => old(self)@.set_spec(key@, value@) == Some(final(self)@),
                Err(e) => old(self)@.set_spec(key@, value@) is None && final(self)@ == old(self)@
                    && e@ == AppErrorView::Config("Unknown keybindings key: '"@ + key@ + "'"@),
            },
    {
        proof {
            lemma_keybindings_keys();
        }
        if str_eq(key, "move_down") {
            self.move_down = owned(value);
        } else if str_eq(key, "move_up") {
            self.move_up = owned(value);
        } else if str_eq(key, "toggle_done") {
            self.toggle_done = owned(value);
        } else if str_eq(key, "show_detail") {
            self.show_detail = owned(value);
        } else if str_eq(key, "filter_all") {
            self.filter_all = owned(value);
        } else if str_eq(key, "filter_todo") {
            self.filter_todo = owned(value);
        } else if str_eq(key, "filter_done") {
            self.filter_done = owned(value);
        } else if str_eq(key, "new_task") {
            self.new_task = owned(value);
        } else if str_eq(key, "edit_task") {
            self.edit_task = owned(value);
        } else if str_eq(key, "delete_task") {
            self.delete_task = owned(value);
        } else if str_eq(key, "open_config") {
            self.open_config = owned(value);
        } else if str_eq(key, "command_bar") {
            self.command_bar = owned(value);
        } else if str_eq(key, "help") {
            self.help = owned(value);
        } else if str_eq(key, "reload") {
            self.reload = owned(value);
        } else if str_eq(key, "quit") {
            self.quit = owned(value);
        } else {
            let mut m = owned("Unknown keybindings key: '");
            append_str(&mut m, key);
            append_str(&mut m, "'");
            return Err(AppError::Config(m));
        }
        Ok(())
    }
}

impl KeybindingsConfig {
    /// A copy of the bindings.
    pub fn duplicate(&self) -> (r: Self)
        ensures
            r@ == self@,
    {
        KeybindingsConfig {
            move_down: self.move_down.clone(),
            move_up: self.move_up.clone(),
            toggle_done: self.toggle_done.clone(),
            show_detail: self.show_detail.clone(),
            filter_all: self.filter_all.clone(),
            filter_todo: self.filter_todo.clone(),
            filter_done: self.filter_done.clone(),
            new_task: self.new_task.clone(),
            edit_task: self.edit_task.clone(),
            delete_task: self.delete_task.clone(),
            open_config: self.open_config.clone(),
            command_bar: self.command_bar.clone(),
            help: self.help.clone(),
            reload: self.reload.clone(),
            quit: self.quit.clone(),
        }
    }
}

/// All settings of the application.
#[derive(Debug, Clone)]
pub struct Config {
    pub data_dir: String,
    pub editor: String,
    pub theme: ThemeConfig,
    pub keybindings: KeybindingsConfig,
}

/// The settings as character sequences.
pub struct ConfigView {
    pub data_dir: Seq<char>,
    pub editor: Seq<char>,
    pub theme: ThemeConfigView,
    pub keybindings: KeybindingsConfigView,
}

impl View for Config {
    type V = ConfigView;

    open spec fn view(&self) -> ConfigView {
        ConfigView {
            data_dir: self.data_dir@,
            editor: self.editor@,
            theme: self.theme@,
            keybindings: self.keybindings@,
        }
    }
}

impl Default for Config {
    fn default() -> (r: Self)
        ensures
            r@ == ConfigView::defaults(),
    {
        Config {
            data_dir: owned("~/easytodo"),
            editor: String::new(),
            theme: ThemeConfig::default(),
            keybindings: KeybindingsConfig::default(),
        }
    }
}

/// A settings key split at its first dot: the section, and the rest if there is a dot.
pub open spec fn split_key(key: Seq<char>) -> (Seq<char>, Option<Seq<char>>) {
    match find_char(key, '.', 0) {
        Some(p) => (key.subrange(0, p), Some(key.subrange(p + 1, key.len() as int))),
        None => (key, None),
    }
}

/// The editor to run: the configured one, else the `EDITOR` variable, else `vim`.
pub open spec fn editor_choice(configured: Seq<char>, env_editor: Option<Seq<char>>) -> Seq<char> {
    if configured.len() > 0 {
        configured
    } else {
        match env_editor {
            Some(e) => e,
            None => "vim"@,
        }
    }
}

/// The text of the error for a settings key that is not known.
pub open spec fn unknown_key_text(key: Seq<char>) -> Seq<char> {
    "Unknown config key: '"@ + key + "'. Valid: data_dir, editor, theme.<field>, keybindings.<field>"@
}

impl ConfigView {
    /// The values the settings start with.
    pub open spec fn defaults() -> ConfigView {
        ConfigView {
            data_dir: "~/easytodo"@,
            editor: Seq::<char>::empty(),
            theme: ThemeConfigView::defaults(),
            keybindings: KeybindingsConfigView::defaults(),
        }
    }

    /// What `Config::get` gives for `key` when the `EDITOR` variable is `env_editor`.
    pub open spec fn get_spec(self, key: Seq<char>, env_editor: Option<Seq<char>>) -> Option<Seq<char>> {
        let (head, rest) = split_key(key);
        if head == "data_dir"@ {
            Some(self.data_dir)
        } else if head == "editor"@ {
            Some(editor_choice(self.editor, env_editor))
        } else if head == "theme"@ {
            match rest {
                Some(k) => self.theme.get_spec(k),
                None => None,
            }
        } else if head == "keybindings"@ {
            match rest {
                Some(k) => self.keybindings.get_spec(k),
                None => None,
            }
        } else {
            None
        }
    }

    /// What `Config::set` makes of the settings, or the error it reports.
    pub open spec fn set_spec(self, key: Seq<char>, value: Seq<char>) -> Result<ConfigView, AppErrorView> {
        let (head, rest) = split_key(key);
        if head == "data_dir"@ {
            Ok(ConfigView { data_dir: value, ..self })
        } else if head == "editor"@ {
            Ok(ConfigView { editor: value, ..self })
        } else if head == "theme"@ {
            match rest {
                None => Err(AppErrorView::Config("Missing theme key"@)),
                Some(k) => match self.theme.set_spec(k, value) {
                    Some(t) => Ok(ConfigView { theme: t, ..self }),
                    None => Err(AppErrorView::Config("Unknown theme key: '"@ + k + "'"@)),
                },
            }
        } else if head == "keybindings"@ {
            match rest {
                None => Err(AppErrorView::Config("Missing keybindings key"@)),
                Some(k) => match self.keybindings.set_spec(k, value) {
                    Some(b) => Ok(ConfigView { keybindings: b, ..self }),
                    None => Err(AppErrorView::Config("Unknown keybindings key: '"@ + k + "'"@)),
                },
            }
        } else {
            Err(AppErrorView::Config(unknown_key_text(key)))
        }
    }
}

/// The names of the sections of the settings, spelled out.
pub proof fn lemma_section_names()
    ensures
        "data_dir"@ == seq!['d', 'a', 't', 'a', '_', 'd', 'i', 'r'],
        "editor"@ == seq!['e', 'd', 'i', 't', 'o', 'r'],
        "theme"@ == seq!['t', 'h', 'e', 'm', 'e'],
        "keybindings"@ == seq!['k', 'e', 'y', 'b', 'i', 'n', 'd', 'i', 'n', 'g', 's'],
{
    reveal_strlit("data_dir");
    reveal_strlit("editor");
    reveal_strlit("theme");
    reveal_strlit("keybindings");
}

/// Splits a settings key at its first dot.
fn split_key_exec(key: &str) -> (r: (String, Option<String>))
    ensures
        (r.0@, opt_view(r.1)) == split_key(key@),
{
    let v = chars_of(key);
    let n = v.len();
    let mut p: usize = 0;
    while p < n && v[p] != '.'
        invariant
            p <= n == v@.len(),
            v@ == key@,
            find_char(key@, '.', 0) == find_char(key@, '.', p as int),
        decreases n - p,
    {
        p = p + 1;
    }
    if p < n {
        (string_from(&v, 0, p), Some(string_from(&v, p + 1, n)))
    } else {
        proof {
            assert(v@.subrange(0, n as int) =~= key@);
        }
        (string_from(&v, 0, n), None)
    }
}

impl Config {
    /// The editor to run, given the value of the `EDITOR` variable.
    pub fn editor(&self, env_editor: Option<String>) -> (r: String)
        ensures
            r@ == editor_choice(self.editor@, opt_view(env_editor)),
    {
        if !self.editor.as_str().is_empty() {
            self.editor.clone()
        } else {
            match env_editor {
                Some(e) => e,
                None => owned("vim"),
            }
        }
    }

    /// The data directory, with a leading `~` standing for the home directory `home`.
    pub fn resolved_data_dir(&self, home: Option<String>) -> (r: Result<String, AppError>)
        requires
            home is Some ==> home_cut_allowed(self.data_dir@),
        ensures
            match r {
                Ok(p) => expand_home(self.data_dir@, opt_view(home)) == Some(p@),
                Err(e) => expand_home(self.data_dir@, opt_view(home)) is None && e@ == AppErrorView::HomeDir,
            },
    {
        match expanded_path(self.data_dir.as_str(), home) {
            Some(p) => Ok(p),
            None => Err(AppError::HomeDir),
        }
    }

    /// The value of a settings key (`data_dir`, `editor`, `theme.<field>`,
    /// `keybindings.<field>`), given the value of the `EDITOR` variable.
    pub fn get(&self, key: &str, env_editor: Option<String>) -> (r: Option<String>)
        ensures
            opt_view(r) == self@.get_spec(key@, opt_view(env_editor)),
    {
        proof {
            lemma_section_names();
        }
        let (head, rest) = split_key_exec(key);
        let h = head.as_str();
        if str_eq(h, "data_dir") {
            Some(self.data_dir.clone())
        } else if str_eq(h, "editor") {
            Some(self.editor(env_editor))
        } else if str_eq(h, "theme") {
            match rest {
                Some(k) => self.theme.get(k.as_str()),
                None => None,
            }
        } else if str_eq(h, "keybindings") {
            match rest {
                Some(k) => self.keybindings.get(k.as_str()),
                None => None,
            }
        } else {
            None
        }
    }

    /// Stores `value` under a settings key. Writing the settings file afterwards
    /// is the caller's part.
    pub fn set(&mut self, key: &str, value: &str) -> (r: Result<(), AppError>)
        ensures
            match r {
                Ok(_) => old(self)@.set_spec(key@, value@) == Ok::<ConfigView, AppErrorView>(final(self)@),
                Err(e) => old(self)@.set_spec(key@, value@) == Err::<ConfigView, AppErrorView>(e@)
                    && final(self)@ == old(self)@,
            },
    {
        proof {
            lemma_section_names();
        }
        let (head, rest) = split_key_exec(key);
        let h = head.as_str();
        if str_eq(h, "data_dir") {
            self.data_dir = owned(value);
        } else if str_eq(h, "editor") {
            self.editor = owned(value);
        } else if str_eq(h, "theme") {
            match rest {
                None => {
                    return Err(AppError::Config(owned("Missing theme key")));
                },
                Some(k) => {
                    self.theme.set(k.as_str(), value)?;
                },
            }
        } else if str_eq(h, "keybindings") {
            match rest {
                None => {
                    return Err(AppError::Config(owned("Missing keybindings key")));
                },
                Some(k) => {
                    self.keybindings.set(k.as_str(), value)?;
                },
            }
        } else {
            let mut m = owned("Unknown config key: '");
            append_str(&mut m, key);
            append_str(&mut m, "'. Valid: data_dir, editor, theme.<field>, keybindings.<field>");
            return Err(AppError::Config(m));
        }
        Ok(())
    }
}


/// The value of the digit `c` in base `radix`: `0`-`9`, then letters of either case from 10 on.
pub open spec fn digit_value(c: char, radix: nat) -> Option<nat> {
    let u = c as u32;
    let d: int = if '0' <= c <= '9' {
        u - 48
    } else if 'a' <= c <= 'z' {
        u - 97 + 10
    } else if 'A' <= c <= 'Z' {
        u - 65 + 10
    } else {
        radix as int
    };
    if 0 <= d < radix {
        Some(d as nat)
    } else {
        None
    }
}

/// The number written by the digits `t` in base `radix`, if every character is a digit.
pub open spec fn digits_value(t: Seq<char>, radix: nat) -> Option<nat>
    decreases t.len(),
{
    if t.len() == 0 {
        Some(0)
    } else {
        match (digits_value(t.drop_last(), radix), digit_value(t.last(), radix)) {
            (Some(v), Some(d)) => Some(v * radix + d),
            _ => None,
        }
    }
}

/// What `u8::from_str_radix(t, radix)` accepts: an optional `+`, then one digit or more,
/// worth at most 255.
pub open spec fn u8_in_radix(t: Seq<char>, radix: nat) -> Option<u8> {
    let body = if t.len() > 0 && t[0] == '+' {
        t.subrange(1, t.len() as int)
    } else {
        t
    };
    if body.len() == 0 {
        None
    } else {
        match digits_value(body, radix) {
            Some(v) => if v <= 255 {
                Some(v as u8)
            } else {
                None
            },
            None => None,
        }
    }
}

/// Three colour components, if all three are there.
pub open spec fn all_three(r: Option<u8>, g: Option<u8>, b: Option<u8>) -> Option<(u8, u8, u8)> {
    match (r, g, b) {
        (Some(r), Some(g), Some(b)) => Some((r, g, b)),
        _ => None,
    }
}

/// Whether `s` is a `#` and six bytes that `parse_color` would cut inside a character:
/// the cut after the first two bytes falls inside one, or the first two read as a number
/// and the cut after the next two falls inside one.
pub open spec fn hex_cut_inside_char(s: Seq<char>) -> bool {
    let h = s.subrange(1, s.len() as int);
    &&& s.len() >= 1
    &&& s[0] == '#'
    &&& utf8_len(h) == 6
    &&& (!at_char_boundary(h, 2) || (u8_in_radix(h.subrange(0, 2), 16) is Some && !at_char_boundary(h, 4)))
}

/// The colour written in `s`: `#RRGGBB` in hexadecimal, or `rgb(R,G,B)` in decimal,
/// where white space around each decimal number is allowed.
pub open spec fn color_of(s: Seq<char>) -> Option<(u8, u8, u8)> {
    if s.len() >= 1 && s[0] == '#' && utf8_len(s.subrange(1, s.len() as int)) == 6 {
        let h = s.subrange(1, s.len() as int);
        if h.len() == 6 {
            all_three(
                u8_in_radix(h.subrange(0, 2), 16),
                u8_in_radix(h.subrange(2, 4), 16),
                u8_in_radix(h.subrange(4, 6), 16),
            )
        } else {
            None
        }
    } else if s.len() >= 5 && s.subrange(0, 4) == seq!['r', 'g', 'b', '('] && s.last() == ')' {
        let inner = s.subrange(4, s.len() - 1);
        match find_char(inner, ',', 0) {
            None => None,
            Some(p1) => match find_char(inner, ',', p1 + 1) {
                None => None,
                Some(p2) => if find_char(inner, ',', p2 + 1) is Some {
                    None
                } else {
                    all_three(
                        u8_in_radix(trim(inner.subrange(0, p1)), 10),
                        u8_in_radix(trim(inner.subrange(p1 + 1, p2)), 10),
                        u8_in_radix(trim(inner.subrange(p2 + 1, inner.len() as int)), 10),
                    )
                },
            },
        }
    } else {
        None
    }
}

/// The value of one digit, if `c` is a digit in base `radix`.
fn digit_of(c: char, radix: u32) -> (r: Option<u32>)
    requires
        2 <= radix <= 36,
    ensures
        match r {
            Some(d) => digit_value(c, radix as nat) == Some(d as nat),
            None => digit_value(c, radix as nat) is None,
        },
{
    let u = c as u32;
    let d = if '0' <= c && c <= '9' {
        u - 48
    } else if 'a' <= c && c <= 'z' {
        u - 97 + 10
    } else if 'A' <= c && c <= 'Z' {
        u - 65 + 10
    } else {
        radix
    };
    if d < radix {
        Some(d)
    } else {
        None
    }
}

/// Reads `v[lo..hi]` as `u8::from_str_radix` does.
fn u8_from_chars(v: &Vec<char>, lo: usize, hi: usize, radix: u32) -> (r: Option<u8>)
    requires
        lo <= hi <= v@.len(),
        2 <= radix <= 36,
    ensures
        r == u8_in_radix(v@.subrange(lo as int, hi as int), radix as nat),
{
    let ghost t = v@.subrange(lo as int, hi as int);
    let mut start = lo;
    if lo < hi && v[lo] == '+' {
        start = lo + 1;
    }
    proof {
        if lo < hi && v@[lo as int] == '+' {
            assert(t.subrange(1, t.len() as int) =~= v@.subrange(start as int, hi as int));
        } else {
            assert(t =~= v@.subrange(start as int, hi as int));
        }
    }
    if start == hi {
        return None;
    }
    let ghost whole = u8_in_radix(t, radix as nat);
    assert(whole == (match digits_value(v@.subrange(start as int, hi as int), radix as nat) {
        Some(x) => if x <= 255 {
            Some(x as u8)
        } else {
            None
        },
        None => None,
    }));
    let mut acc: u32 = 0;
    let mut i = start;
    while i < hi
        invariant
            start <= i <= hi <= v@.len(),
            t == v@.subrange(lo as int, hi as int),
            whole == u8_in_radix(t, radix as nat),
            whole == (match digits_value(v@.subrange(start as int, hi as int), radix as nat) {
                Some(x) => if x <= 255 {
                    Some(x as u8)
                } else {
                    None
                },
                None => None,
            }),
            2 <= radix <= 36,
            acc <= 256,
            digits_value(v@.subrange(start as int, i as int), radix as nat) matches Some(x) && acc == (
            if x > 255 {
                256
            } else {
                x
            }),
        decreases hi - i,
    {
        let d = match digit_of(v[i], radix) {
            Some(d) => d,
            None => {
                proof {
                    lemma_digits_invalid(v@.subrange(start as int, hi as int), (i - start) as int, radix as nat);
                    assert(v@.subrange(start as int, hi as int).subrange(0, (i - start) as int) =~= v@.subrange(start as int, i as int));
                    assert(v@.subrange(start as int, hi as int)[(i - start) as int] == v@[i as int]);
                }
                return None;
            },
        };
        let ghost prefix = v@.subrange(start as int, i as int);
        let ghost x = digits_value(prefix, radix as nat)->0;
        proof {
            assert(v@.subrange(start as int, i + 1).drop_last() =~= prefix);
            assert(x * radix >= x) by (nonlinear_arith)
                requires
                    radix >= 2,
                    x >= 0,
            ;
            if acc <= 255 {
                assert(acc * radix <= 255 * 36) by (nonlinear_arith)
                    requires
                        acc <= 255,
                        radix <= 36,
                ;
            }
        }
        if acc > 255 {
            acc = 256;
        } else {
            let next = acc * radix + d;
            acc = if next > 255 {
                256
            } else {
                next
            };
        }
        i = i + 1;
    }
    proof {
        assert(v@.subrange(start as int, i as int) =~= v@.subrange(start as int, hi as int));
    }
    if acc > 255 {
        None
    } else {
        Some(acc as u8)
    }
}

/// A digit that is not one makes the whole number unreadable.
proof fn lemma_digits_invalid(t: Seq<char>, k: int, radix: nat)
    requires
        0 <= k < t.len(),
        digit_value(t[k], radix) is None,
    ensures
        digits_value(t, radix) is None,
    decreases t.len(),
{
    if k < t.len() - 1 {
        lemma_digits_invalid(t.drop_last(), k, radix);
    }
}

/// Index of the first comma in `v[i..hi]`, or `hi`.
fn find_comma(v: &Vec<char>, i: usize, hi: usize) -> (r: usize)
    requires
        i <= hi <= v@.len(),
    ensures
        i <= r <= hi,
        find_char(v@.subrange(0, hi as int), ',', i as int) == (if r < hi {
            Some(r as int)
        } else {
            None::<int>
        }),
{
    let ghost s = v@.subrange(0, hi as int);
    let mut k = i;
    while k < hi && v[k] != ','
        invariant
            i <= k <= hi <= v@.len(),
            s == v@.subrange(0, hi as int),
            find_char(s, ',', i as int) == find_char(s, ',', k as int),
        decreases hi - k,
    {
        k = k + 1;
    }
    k
}

/// Reads a trimmed decimal component `v[lo..hi]`.
fn component(v: &Vec<char>, lo: usize, hi: usize) -> (r: Option<u8>)
    requires
        lo <= hi <= v@.len(),
    ensures
        r == u8_in_radix(trim(v@.subrange(lo as int, hi as int)), 10),
{
    let part = string_from(v, lo, hi);
    let w = chars_of(part.as_str());
    let (a, b) = trim_bounds(&w);
    u8_from_chars(&w, a, b, 10)
}

/// Reads a colour written `#RRGGBB` or `rgb(R,G,B)`.
pub fn parse_color(s: &str) -> (r: Option<(u8, u8, u8)>)
    requires
        !hex_cut_inside_char(s@),
    ensures
        r == color_of(s@),
{
    let v = chars_of(s);
    let n = v.len();
    if n >= 1 && v[0] == '#' {
        let ghost h = v@.subrange(1, n as int);
        let mut bytes: usize = 0;
        let mut i: usize = 1;
        while i < n && bytes <= 6
            invariant
                1 <= i <= n == v@.len(),
                h == v@.subrange(1, n as int),
                bytes == utf8_len(v@.subrange(1, i as int)),
            decreases n - i,
        {
            proof {
                assert(v@.subrange(1, i + 1).drop_last() =~= v@.subrange(1, i as int));
            }
            bytes = bytes + char_width(v[i]);
            i = i + 1;
        }
        proof {
            if i < n {
                lemma_utf8_len_prefix(h, (i - 1) as int);
                assert(h.subrange(0, (i - 1) as int) =~= v@.subrange(1, i as int));
            } else {
                assert(h =~= v@.subrange(1, i as int));
            }
        }
        if i == n && bytes == 6 {
            if n == 7 {
                proof {
                    assert(h.subrange(0, 2) =~= v@.subrange(1, 3));
                    assert(h.subrange(2, 4) =~= v@.subrange(3, 5));
                    assert(h.subrange(4, 6) =~= v@.subrange(5, 7));
                }
                let r = u8_from_chars(&v, 1, 3, 16);
                let g = u8_from_chars(&v, 3, 5, 16);
                let b = u8_from_chars(&v, 5, 7, 16);
                return match (r, g, b) {
                    (Some(r), Some(g), Some(b)) => Some((r, g, b)),
                    _ => None,
                };
            }
            return None;
        }
    }
    if n >= 5 && v[0] == 'r' && v[1] == 'g' && v[2] == 'b' && v[3] == '(' && v[n - 1] == ')' {
        proof {
            assert(v@.subrange(0, 4) =~= seq!['r', 'g', 'b', '(']);
        }
        let lo: usize = 4;
        let hi: usize = n - 1;
        let ghost inner = v@.subrange(4, hi as int);
        assert(inner =~= v@.subrange(0, hi as int).subrange(4, hi as int));
        let p1 = find_comma(&v, lo, hi);
        proof {
            lemma_find_shift(v@.subrange(0, hi as int), 4, ',', 4);
        }
        if p1 == hi {
            return None;
        }
        let p2 = find_comma(&v, p1 + 1, hi);
        proof {
            lemma_find_shift(v@.subrange(0, hi as int), 4, ',', p1 + 1);
        }
        if p2 == hi {
            return None;
        }
        let p3 = find_comma(&v, p2 + 1, hi);
        proof {
            lemma_find_shift(v@.subrange(0, hi as int), 4, ',', p2 + 1);
            assert(inner.subrange(0, p1 - 4) =~= v@.subrange(4, p1 as int));
            assert(inner.subrange(p1 - 3, p2 - 4) =~= v@.subrange(p1 + 1, p2 as int));
            assert(inner.subrange(p2 - 3, inner.len() as int) =~= v@.subrange(p2 + 1, hi as int));
        }
        if p3 < hi {
            return None;
        }
        let r = component(&v, lo, p1);
        let g = component(&v, p1 + 1, p2);
        let b = component(&v, p2 + 1, hi);
        return match (r, g, b) {
            (Some(r), Some(g), Some(b)) => Some((r, g, b)),
            _ => None,
        };
    }
    proof {
        if n >= 5 && v@.subrange(0, 4) == seq!['r', 'g', 'b', '('] {
            assert(v@.subrange(0, 4)[0] == 'r');
            assert(v@.subrange(0, 4)[1] == 'g');
            assert(v@.subrange(0, 4)[2] == 'b');
            assert(v@.subrange(0, 4)[3] == '(');
        }
    }
    None
}

/// Setting a colour: reading that key gives the value set, every other key is unchanged,
/// and the keys that can be set are those that can be read.
pub proof fn theme_set_then_get(t: ThemeConfigView, key: Seq<char>, other: Seq<char>, value: Seq<char>)
    ensures
        t.set_spec(key, value) is Some <==> t.get_spec(key) is Some,
        t.set_spec(key, value) matches Some(t2) ==> t2.get_spec(key) == Some(value),
        t.set_spec(key, value) matches Some(t2) ==> (other != key ==> t2.get_spec(other) == t.get_spec(
            other,
        )),
{
    lemma_theme_keys();
}

/// Setting a key binding: reading that key gives the value set, every other key is
/// unchanged, and the keys that can be set are those that can be read.
pub proof fn keybindings_set_then_get(
    b: KeybindingsConfigView,
    key: Seq<char>,
    other: Seq<char>,
    value: Seq<char>,
)
    ensures
        b.set_spec(key, value) is Some <==> b.get_spec(key) is Some,
        b.set_spec(key, value) matches Some(b2) ==> b2.get_spec(key) == Some(value),
        b.set_spec(key, value) matches Some(b2) ==> (other != key ==> b2.get_spec(other) == b.get_spec(
            other,
        )),
{
    lemma_keybindings_keys();
}

/// Whether the keys `a` and `b` name the same setting.
pub open spec fn same_setting(a: Seq<char>, b: Seq<char>) -> bool {
    let (ha, ra) = split_key(a);
    let (hb, rb) = split_key(b);
    ha == hb && (ha == "data_dir"@ || ha == "editor"@ || ra == rb)
}

/// A setting that was stored reads back as stored, whatever the `EDITOR` variable holds
/// (an empty editor is the one exception, since an empty editor reads as the fallback),
/// and every other setting reads as before.
pub proof fn config_set_then_get(
    c: ConfigView,
    key: Seq<char>,
    other: Seq<char>,
    value: Seq<char>,
    env: Option<Seq<char>>,
)
    requires
        !(split_key(key).0 == "editor"@ && value.len() == 0),
    ensures
        c.set_spec(key, value) matches Ok(c2) ==> c2.get_spec(key, env) == Some(value),
        c.set_spec(key, value) matches Ok(c2) ==> (!same_setting(key, other) ==> c2.get_spec(other, env)
            == c.get_spec(other, env)),
{
    lemma_section_names();
    let (head, rest) = split_key(key);
    let (oh, orest) = split_key(other);
    if head == "theme"@ {
        if let Some(k) = rest {
            theme_set_then_get(c.theme, k, k, value);
            if let Some(o) = orest {
                theme_set_then_get(c.theme, k, o, value);
            }
        }
    } else if head == "keybindings"@ {
        if let Some(k) = rest {
            keybindings_set_then_get(c.keybindings, k, k, value);
            if let Some(o) = orest {
                keybindings_set_then_get(c.keybindings, k, o, value);
            }
        }
    }
}

/// Whether `key` names a setting: `data_dir`, `editor`, or a field of the colours or of
/// the key bindings.
pub open spec fn settable(c: ConfigView, key: Seq<char>) -> bool {
    let (head, rest) = split_key(key);
    ||| head == "data_dir"@
    ||| head == "editor"@
    ||| head == "theme"@ && (match rest {
        Some(k) => c.theme.get_spec(k) is Some,
        None => false,
    })
    ||| head == "keybindings"@ && (match rest {
        Some(k) => c.keybindings.get_spec(k) is Some,
        None => false,
    })
}

/// Storing a setting fails exactly when its key names no setting.
pub proof fn config_set_refusals(c: ConfigView, key: Seq<char>, value: Seq<char>)
    ensures
        c.set_spec(key, value) is Err <==> !settable(c, key),
{
    lemma_section_names();
    let (head, rest) = split_key(key);
    if let Some(k) = rest {
        theme_set_then_get(c.theme, k, k, value);
        keybindings_set_then_get(c.keybindings, k, k, value);
    }
}

/// The lower-case hexadecimal digit of `d` (below 16).
pub open spec fn hex_digit(d: int) -> char {
    if d == 0 {
        '0'
    } else if d == 1 {
        '1'
    } else if d == 2 {
        '2'
    } else if d == 3 {
        '3'
    } else if d == 4 {
        '4'
    } else if d == 5 {
        '5'
    } else if d == 6 {
        '6'
    } else if d == 7 {
        '7'
    } else if d == 8 {
        '8'
    } else if d == 9 {
        '9'
    } else if d == 10 {
        'a'
    } else if d == 11 {
        'b'
    } else if d == 12 {
        'c'
    } else if d == 13 {
        'd'
    } else if d == 14 {
        'e'
    } else {
        'f'
    }
}

/// `n` in two hexadecimal digits.
pub open spec fn hex_pair(n: u8) -> Seq<char> {
    seq![hex_digit((n as int) / 16), hex_digit((n as int) % 16)]
}

/// The colour `(r, g, b)` written `#rrggbb`.
pub open spec fn hex_color(r: u8, g: u8, b: u8) -> Seq<char> {
    seq!['#'] + hex_pair(r) + hex_pair(g) + hex_pair(b)
}

proof fn lemma_hex_digit(d: int)
    requires
        0 <= d < 16,
    ensures
        digit_value(hex_digit(d), 16) == Some(d as nat),
        (hex_digit(d) as u32) < 128,
        hex_digit(d) != '+',
{
}

proof fn lemma_hex_pair(n: u8)
    ensures
        u8_in_radix(hex_pair(n), 16) == Some(n),
{
    let t = hex_pair(n);
    lemma_hex_digit((n as int) / 16);
    lemma_hex_digit((n as int) % 16);
    assert(t.drop_last().drop_last() =~= Seq::<char>::empty());
    assert(t.drop_last() =~= seq![hex_digit((n as int) / 16)]);
    assert(digits_value(Seq::<char>::empty(), 16) == Some(0nat));
    assert(t.drop_last().last() == hex_digit((n as int) / 16));
    assert(t.last() == hex_digit((n as int) % 16));
    assert(digits_value(t.drop_last(), 16) == Some(((n as int) / 16) as nat));
    assert(digits_value(t, 16) == Some(n as nat));
}

/// Every colour written `#rrggbb` reads back as that colour.
pub proof fn hex_color_round_trip(r: u8, g: u8, b: u8)
    ensures
        !hex_cut_inside_char(hex_color(r, g, b)),
        color_of(hex_color(r, g, b)) == Some((r, g, b)),
{
    let s = hex_color(r, g, b);
    let h = s.subrange(1, s.len() as int);
    lemma_hex_digit((r as int) / 16);
    lemma_hex_digit((r as int) % 16);
    lemma_hex_digit((g as int) / 16);
    lemma_hex_digit((g as int) % 16);
    lemma_hex_digit((b as int) / 16);
    lemma_hex_digit((b as int) % 16);
    assert(h =~= hex_pair(r) + hex_pair(g) + hex_pair(b));
    assert(h.len() == 6);
    assert forall|i: int| 0 <= i < 6 implies (#[trigger] h[i] as u32) < 128 by {}
    lemma_ascii_bytes(h, 6);
    lemma_ascii_bytes(h, 2);
    lemma_ascii_bytes(h, 4);
    assert(h.subrange(0, 6) =~= h);
    assert(at_char_boundary(h, 2));
    assert(at_char_boundary(h, 4));
    assert(h.subrange(0, 2) =~= hex_pair(r));
    assert(h.subrange(2, 4) =~= hex_pair(g));
    assert(h.subrange(4, 6) =~= hex_pair(b));
    lemma_hex_pair(r);
    lemma_hex_pair(g);
    lemma_hex_pair(b);
}

/// A prefix of ASCII characters takes one byte per character.
proof fn lemma_ascii_bytes(s: Seq<char>, k: int)
    requires
        0 <= k <= s.len(),
        forall|i: int| 0 <= i < k ==> (#[trigger] s[i] as u32) < 128,
    ensures
        utf8_len(s.subrange(0, k)) == k,
    decreases k,
{
    if k > 0 {
        lemma_ascii_bytes(s, k - 1);
        assert(s.subrange(0, k).drop_last() =~= s.subrange(0, k - 1));
    }
}

/// The colour written in `s`, or `fallback` where it does not read as one.
pub open spec fn colour_or(s: Seq<char>, fallback: (u8, u8, u8)) -> (u8, u8, u8) {
    match color_of(s) {
        Some(c) => c,
        None => fallback,
    }
}

/// The colour written in `s`, or `fallback`.
fn colour_or_exec(s: &str, fallback: (u8, u8, u8)) -> (r: (u8, u8, u8))
    requires
        !hex_cut_inside_char(s@),
    ensures
        r == colour_or(s@, fallback),
{
    match parse_color(s) {
        Some(c) => c,
        None => fallback,
    }
}

/// Whether every colour of `t` can be read without cutting a character.
pub open spec fn theme_readable(t: ThemeConfigView) -> bool {
    &&& !hex_cut_inside_char(t.selected_bg)
    &&& !hex_cut_inside_char(t.done_fg)
    &&& !hex_cut_inside_char(t.border)
    &&& !hex_cut_inside_char(t.command_bar_bg)
    &&& !hex_cut_inside_char(t.modal_bg)
    &&& !hex_cut_inside_char(t.title_fg)
    &&& !hex_cut_inside_char(t.normal_bg)
    &&& !hex_cut_inside_char(t.status_bar_fg)
}

/// The colours of the interface, as red, green and blue.
#[derive(Debug, Clone, Copy)]
pub struct Palette {
    pub selected_bg: (u8, u8, u8),
    pub done_fg: (u8, u8, u8),
    pub border: (u8, u8, u8),
    pub command_bar_bg: (u8, u8, u8),
    pub modal_bg: (u8, u8, u8),
    pub title_fg: (u8, u8, u8),
    pub normal_bg: (u8, u8, u8),
    pub status_bar_fg: (u8, u8, u8),
}

impl Palette {
    /// The colours that the theme's settings write, each setting that does not read as a
    /// colour giving way to the default colour of its place.
    pub fn from_theme(t: &ThemeConfig) -> (p: Palette)
        requires
            theme_readable(t@),
        ensures
            p.selected_bg == colour_or(t.selected_bg@, (60u8, 60u8, 80u8)),
            p.done_fg == colour_or(t.done_fg@, (100u8, 140u8, 100u8)),
            p.border == colour_or(t.border@, (80u8, 80u8, 120u8)),
            p.command_bar_bg == colour_or(t.command_bar_bg@, (30u8, 30u8, 50u8)),
            p.modal_bg == colour_or(t.modal_bg@, (25u8, 25u8, 45u8)),
            p.title_fg == colour_or(t.title_fg@, (180u8, 180u8, 220u8)),
            p.normal_bg == colour_or(t.normal_bg@, (20u8, 20u8, 35u8)),
            p.status_bar_fg == colour_or(t.status_bar_fg@, (130u8, 130u8, 160u8)),
    {
        Palette {
            selected_bg: colour_or_exec(t.selected_bg.as_str(), (60, 60, 80)),
            done_fg: colour_or_exec(t.done_fg.as_str(), (100, 140, 100)),
            border: colour_or_exec(t.border.as_str(), (80, 80, 120)),
            command_bar_bg: colour_or_exec(t.command_bar_bg.as_str(), (30, 30, 50)),
            modal_bg: colour_or_exec(t.modal_bg.as_str(), (25, 25, 45)),
            title_fg: colour_or_exec(t.title_fg.as_str(), (180, 180, 220)),
            normal_bg: colour_or_exec(t.normal_bg.as_str(), (20, 20, 35)),
            status_bar_fg: colour_or_exec(t.status_bar_fg.as_str(), (130, 130, 160)),
        }
    }
}

} // verus!
