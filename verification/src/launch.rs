//! Where the editor opens: the terminal that runs the application, read from the
//! process table, and how to ask that terminal for a new tab.

use vstd::prelude::*;

use crate::config::{digit_value, digits_value};
use crate::text::{chars_of, find_char, is_whitespace, is_ws, owned, skip_ws, str_eq, string_from};

verus! {

/// The lines of `s` from index `i`, as `str::lines` gives them: split at line feeds, a
/// carriage return just before a line feed dropped, no empty line after a final line feed.
pub open spec fn lines_from(s: Seq<char>, i: int) -> Seq<Seq<char>>
    decreases s.len() - i,
{
    if !(0 <= i < s.len()) {
        Seq::<Seq<char>>::empty()
    } else {
        match find_char(s, '\n', i) {
            None => seq![s.subrange(i, s.len() as int)],
            Some(j) => {
                proof {
                    crate::text::lemma_find_char(s, '\n', i);
                }
                let line = s.subrange(i, j);
                let line = if line.len() > 0 && line.last() == '\r' {
                    line.drop_last()
                } else {
                    line
                };
                seq![line] + lines_from(s, j + 1)
            },
        }
    }
}

/// The first of `ls` that starts with `p`.
pub open spec fn first_starting_with(ls: Seq<Seq<char>>, p: Seq<char>) -> Option<Seq<char>>
    decreases ls.len(),
{
    if ls.len() == 0 {
        None
    } else if ls[0].len() >= p.len() && ls[0].subrange(0, p.len() as int) == p {
        Some(ls[0])
    } else {
        first_starting_with(ls.drop_first(), p)
    }
}

/// The first index at or after `i` that holds white space (or the length).
pub open spec fn word_end(s: Seq<char>, i: int) -> int
    decreases s.len() - i,
{
    if 0 <= i < s.len() && !is_ws(s[i]) {
        word_end(s, i + 1)
    } else {
        i
    }
}

/// The second of the words of `line` that white space separates, if there are two.
pub open spec fn second_word(line: Seq<char>) -> Option<Seq<char>> {
    let a = skip_ws(line, 0);
    let b = word_end(line, a);
    let c = skip_ws(line, b);
    if a < line.len() && c < line.len() {
        Some(line.subrange(c, word_end(line, c)))
    } else {
        None
    }
}

/// What `t.parse::<u64>()` accepts: an optional `+`, then decimal digits, at most `u64::MAX`.
pub open spec fn u64_of(t: Seq<char>) -> Option<u64> {
    let body = if t.len() > 0 && t[0] == '+' {
        t.subrange(1, t.len() as int)
    } else {
        t
    };
    if body.len() == 0 {
        None
    } else {
        match digits_value(body, 10) {
            Some(v) => if v <= u64::MAX {
                Some(v as u64)
            } else {
                None
            },
            None => None,
        }
    }
}

/// The parent process id written in the text of `/proc/<pid>/status`: the second word of
/// its first line that starts with `PPid:`.
pub open spec fn parent_pid_spec(status: Seq<char>) -> Option<u64> {
    match first_starting_with(lines_from(status, 0), seq!['P', 'P', 'i', 'd', ':']) {
        Some(line) => match second_word(line) {
            Some(w) => u64_of(w),
            None => None,
        },
        None => None,
    }
}

pub proof fn lemma_word_end(s: Seq<char>, i: int)
    requires
        0 <= i <= s.len(),
    ensures
        i <= word_end(s, i) <= s.len(),
        i < s.len() && !is_ws(s[i]) ==> i < word_end(s, i),
    decreases s.len() - i,
{
    if i < s.len() && !is_ws(s[i]) {
        lemma_word_end(s, i + 1);
    }
}

/// Reads `v[lo..hi]` as `str::parse::<u64>` does.
fn u64_from_chars(v: &Vec<char>, lo: usize, hi: usize) -> (r: Option<u64>)
    requires
        lo <= hi <= v@.len(),
    ensures
        r == u64_of(v@.subrange(lo as int, hi as int)),
{
    let ghost t = v@.subrange(lo as int, hi as int);
    let mut start = lo;
    if lo < hi && v[lo] == '+' {
        start = lo + 1;
    }
    proof {
        if lo < hi && v@[lo as int] == '+' {
            assert(t.subrange(1, t.len() as int) =~= v@.subrange(start as int, hi as int));
        } else {
            assert(t =~= v@.subrange(start as int, hi as int));
        }
    }
    if start == hi {
        return None;
    }
    let ghost whole = u64_of(t);
    assert(whole == (match digits_value(v@.subrange(start as int, hi as int), 10) {
        Some(x) => if x <= u64::MAX {
            Some(x as u64)
        } else {
            None
        },
        None => None,
    }));
    let cap: u128 = 18446744073709551616;
    let mut acc: u128 = 0;
    let mut i = start;
    while i < hi
        invariant
            start <= i <= hi <= v@.len(),
            cap == 18446744073709551616,
            t == v@.subrange(lo as int, hi as int),
            whole == u64_of(t),
            whole == (match digits_value(v@.subrange(start as int, hi as int), 10) {
                Some(x) => if x <= u64::MAX {
                    Some(x as u64)
                } else {
                    None
                },
                None => None,
            }),
            acc <= cap,
            digits_value(v@.subrange(start as int, i as int), 10) matches Some(x) && acc == (if x
                >= cap {
                cap as int
            } else {
                x as int
            }),
        decreases hi - i,
    {
        let c = v[i];
        if !('0' <= c && c <= '9') {
            proof {
                lemma_invalid_digit(v@.subrange(start as int, hi as int), (i - start) as int);
                assert(v@.subrange(start as int, hi as int)[(i - start) as int] == v@[i as int]);
            }
            return None;
        }
        let d = (c as u32 - 48) as u128;
        let ghost prefix = v@.subrange(start as int, i as int);
        let ghost x = digits_value(prefix, 10)->0;
        proof {
            assert(v@.subrange(start as int, i + 1).drop_last() =~= prefix);
            assert(x * 10 >= x) by (nonlinear_arith)
                requires
                    x >= 0,
            ;
            if acc < cap {
                assert(acc * 10 <= cap * 10) by (nonlinear_arith)
                    requires
                        acc <= cap,
                ;
            }
        }
        if acc >= cap {
            acc = cap;
        } else {
            let next = acc * 10 + d;
            acc = if next >= cap {
                cap
            } else {
                next
            };
        }
        i = i + 1;
    }
    proof {
        assert(v@.subrange(start as int, i as int) =~= v@.subrange(start as int, hi as int));
    }
    if acc >= cap {
        None
    } else {
        Some(acc as u64)
    }
}

proof fn lemma_invalid_digit(t: Seq<char>, k: int)
    requires
        0 <= k < t.len(),
        !('0' <= t[k] <= '9'),
    ensures
        digits_value(t, 10) is None,
    decreases t.len(),
{
    if k < t.len() - 1 {
        lemma_invalid_digit(t.drop_last(), k);
    }
}

/// The second word of the line `l`, read as a process id.
fn second_word_number(l: &Vec<char>) -> (r: Option<u64>)
    ensures
        r == (match second_word(l@) {
            Some(w) => u64_of(w),
            None => None,
        }),
{
    let n = l.len();
    let mut a: usize = 0;
    while a < n && is_whitespace(l[a])
        invariant
            a <= n == l@.len(),
            skip_ws(l@, 0) == skip_ws(l@, a as int),
        decreases n - a,
    {
        a = a + 1;
    }
    let mut b = a;
    while b < n && !is_whitespace(l[b])
        invariant
            a <= b <= n == l@.len(),
            word_end(l@, a as int) == word_end(l@, b as int),
        decreases n - b,
    {
        b = b + 1;
    }
    let mut c = b;
    while c < n && is_whitespace(l[c])
        invariant
            b <= c <= n == l@.len(),
            skip_ws(l@, b as int) == skip_ws(l@, c as int),
        decreases n - c,
    {
        c = c + 1;
    }
    if a < n && c < n {
        let mut e = c;
        while e < n && !is_whitespace(l[e])
            invariant
                c <= e <= n == l@.len(),
                word_end(l@, c as int) == word_end(l@, e as int),
            decreases n - e,
        {
            e = e + 1;
        }
        u64_from_chars(l, c, e)
    } else {
        None
    }
}

/// The parent process id written in the text of `/proc/<pid>/status`.
pub fn parent_pid(status: &str) -> (r: Option<u64>)
    ensures
        r == parent_pid_spec(status@),
{
    let v = chars_of(status);
    let n = v.len();
    let ghost p = seq!['P', 'P', 'i', 'd', ':'];
    let mut i: usize = 0;
    while i < n
        invariant
            i <= n == v@.len(),
            v@ == status@,
            p == seq!['P', 'P', 'i', 'd', ':'],
            first_starting_with(lines_from(v@, 0), p) == first_starting_with(lines_from(v@, i as int), p),
        decreases n - i,
    {
        let mut j = i;
        while j < n && v[j] != '\n'
            invariant
                i <= j <= n == v@.len(),
                find_char(v@, '\n', i as int) == find_char(v@, '\n', j as int),
            decreases n - j,
        {
            j = j + 1;
        }
        let mut e = j;
        if j < n && e > i && v[e - 1] == '\r' {
            e = e - 1;
        }
        let l = chars_of(string_from(&v, i, e).as_str());
        let ghost rest = lines_from(v@, j + 1);
        proof {
            crate::text::lemma_find_char(v@, '\n', i as int);
            if j < n {
                assert(find_char(v@, '\n', i as int) == Some(j as int));
                let line = v@.subrange(i as int, j as int);
                if line.len() > 0 && line.last() == '\r' {
                    assert(line.drop_last() =~= l@);
                } else {
                    assert(line =~= l@);
                }
                assert(lines_from(v@, i as int) == seq![l@] + rest);
            } else {
                assert(find_char(v@, '\n', i as int) is None);
                assert(v@.subrange(i as int, n as int) =~= l@);
                assert(lines_from(v@, i as int) == seq![l@]);
            }
        }
        if l.len() >= 5 && l[0] == 'P' && l[1] == 'P' && l[2] == 'i' && l[3] == 'd' && l[4] == ':' {
            proof {
                assert(l@.subrange(0, 5) =~= p);
            }
            return second_word_number(&l);
        }
        proof {
            if l@.len() >= 5 && l@.subrange(0, 5) == p {
                assert(l@.subrange(0, 5)[0] == 'P');
                assert(l@.subrange(0, 5)[1] == 'P');
                assert(l@.subrange(0, 5)[2] == 'i');
                assert(l@.subrange(0, 5)[3] == 'd');
                assert(l@.subrange(0, 5)[4] == ':');
            }
            if j < n {
                assert((seq![l@] + rest).drop_first() =~= rest);
            } else {
                assert(seq![l@].drop_first() =~= Seq::<Seq<char>>::empty());
                assert(seq![l@][0] == l@);
                assert(first_starting_with(seq![l@], p) == first_starting_with(Seq::<Seq<char>>::empty(), p));
            }
        }
        if j >= n {
            return None;
        }
        i = j + 1;
    }
    None
}

/// The terminal programs that can open a tab, by the name of their process: the command
/// to run and the arguments that come before the editor's.
pub open spec fn terminal_for(name: Seq<char>) -> Option<(Seq<char>, Seq<Seq<char>>)> {
    if name == "gnome-terminal-server"@ {
        Some(("gnome-terminal"@, seq!["--tab"@, "--"@]))
    } else if name == "konsole"@ {
        Some(("konsole"@, seq!["--new-tab"@, "-e"@]))
    } else if name == "xfce4-terminal"@ {
        Some(("xfce4-terminal"@, seq!["--tab"@, "-e"@]))
    } else if name == "kitty"@ {
        Some(("kitty"@, seq!["@"@, "launch"@, "--type"@, "tab"@]))
    } else if name == "alacritty"@ {
        Some(("alacritty"@, seq!["-e"@]))
    } else if name == "wezterm"@ {
        Some(("wezterm"@, seq!["cli"@, "spawn"@]))
    } else if name == "foot"@ {
        Some(("foot"@, seq!["-e"@]))
    } else {
        None
    }
}

pub open spec fn words_view(v: Seq<String>) -> Seq<Seq<char>> {
    v.map_values(|w: String| w@)
}

/// A list of words.
fn words(ws: &[&str]) -> (r: Vec<String>)
    ensures
        words_view(r@) == ws@.map_values(|w: &str| w@),
{
    let mut r: Vec<String> = Vec::new();
    let mut i: usize = 0;
    while i < ws.len()
        invariant
            i <= ws@.len(),
            words_view(r@) == ws@.subrange(0, i as int).map_values(|w: &str| w@),
        decreases ws@.len() - i,
    {
        r.push(owned(ws[i]));
        proof {
            assert(ws@.subrange(0, i + 1).map_values(|w: &str| w@) =~= ws@.subrange(0, i as int).map_values(
                |w: &str| w@,
            ).push(ws@[i as int]@));
            assert(words_view(r@) =~= ws@.subrange(0, i + 1).map_values(|w: &str| w@));
        }
        i = i + 1;
    }
    proof {
        assert(ws@.subrange(0, i as int) =~= ws@);
    }
    r
}

/// The command and leading arguments that open a tab in the terminal named `name`.
pub fn terminal_command(name: &str) -> (r: Option<(String, Vec<String>)>)
    ensures
        match r {
            Some((cmd, args)) => terminal_for(name@) == Some((cmd@, words_view(args@))),
            None => terminal_for(name@) is None,
        },
{
    let (cmd, args): (&str, &[&str]) = if str_eq(name, "gnome-terminal-server") {
        ("gnome-terminal", &["--tab", "--"])
    } else if str_eq(name, "konsole") {
        ("konsole", &["--new-tab", "-e"])
    } else if str_eq(name, "xfce4-terminal") {
        ("xfce4-terminal", &["--tab", "-e"])
    } else if str_eq(name, "kitty") {
        ("kitty", &["@", "launch", "--type", "tab"])
    } else if str_eq(name, "alacritty") {
        ("alacritty", &["-e"])
    } else if str_eq(name, "wezterm") {
        ("wezterm", &["cli", "spawn"])
    } else if str_eq(name, "foot") {
        ("foot", &["-e"])
    } else {
        return None;
    };
    let list = words(args);
    proof {
        assert(words_view(list@) =~= (terminal_for(name@)->0).1);
    }
    Some((owned(cmd), list))
}

/// A program to run and its arguments.
pub open spec fn command_view(c: (String, Vec<String>)) -> (Seq<char>, Seq<Seq<char>>) {
    (c.0@, words_view(c.1@))
}

/// The ways to open `path` in `editor` in another window, in the order they are tried:
/// a new tmux window when running inside tmux, then a new tab of the terminal `terminal`
/// (its command and leading arguments) when it is known.
pub open spec fn tab_commands_spec(
    editor: Seq<char>,
    path: Seq<char>,
    in_tmux: bool,
    terminal: Option<(Seq<char>, Seq<Seq<char>>)>,
) -> Seq<(Seq<char>, Seq<Seq<char>>)> {
    let tmux = if in_tmux {
        seq![("tmux"@, seq!["new-window"@, editor, path])]
    } else {
        Seq::empty()
    };
    match terminal {
        Some((cmd, args)) => tmux.push((cmd, args + seq![editor, path])),
        None => tmux,
    }
}

/// The commands that open `path` in `editor` in another window, in the order to try them.
pub fn tab_commands(
    editor: &str,
    path: &str,
    in_tmux: bool,
    terminal: Option<(String, Vec<String>)>,
) -> (r: Vec<(String, Vec<String>)>)
    ensures
        r@.map_values(|c: (String, Vec<String>)| command_view(c)) == tab_commands_spec(
            editor@,
            path@,
            in_tmux,
            match terminal {
                Some(t) => Some(command_view(t)),
                None => None,
            },
        ),
{
    let mut r: Vec<(String, Vec<String>)> = Vec::new();
    if in_tmux {
        let mut args: Vec<String> = Vec::new();
        args.push(owned("new-window"));
        args.push(owned(editor));
        args.push(owned(path));
        proof {
            assert(words_view(args@) =~= seq!["new-window"@, editor@, path@]);
        }
        r.push((owned("tmux"), args));
    }
    let ghost before = r@;
    match terminal {
        Some((cmd, args)) => {
            let mut args = args;
            let ghost lead = args@;
            args.push(owned(editor));
            args.push(owned(path));
            proof {
                assert(words_view(args@) =~= words_view(lead) + seq![editor@, path@]);
            }
            r.push((cmd, args));
            proof {
                assert(r@.map_values(|c: (String, Vec<String>)| command_view(c)) =~= before.map_values(
                    |c: (String, Vec<String>)| command_view(c),
                ).push(command_view(r@.last())));
            }
        },
        None => {},
    }
    proof {
        let spec_tmux: Seq<(Seq<char>, Seq<Seq<char>>)> = if in_tmux {
            seq![("tmux"@, seq!["new-window"@, editor@, path@])]
        } else {
            Seq::empty()
        };
        assert(before.map_values(|c: (String, Vec<String>)| command_view(c)) =~= spec_tmux);
    }
    r
}

/// The error of an editor that could not be started, `why` being the system's reason.
pub fn editor_start_error(editor: &str, why: &str) -> (e: crate::errors::AppError)
    ensures
        e@ == crate::errors::AppErrorView::Editor("Failed to run editor '"@ + editor@ + "': "@ + why@),
{
    let mut m = owned("Failed to run editor '");
    crate::text::append_str(&mut m, editor);
    crate::text::append_str(&mut m, "': ");
    crate::text::append_str(&mut m, why);
    crate::errors::AppError::Editor(m)
}

/// The error of an editor that exited with a failure, `status` being how it exited.
pub fn editor_exit_error(editor: &str, status: &str) -> (e: crate::errors::AppError)
    ensures
        e@ == crate::errors::AppErrorView::Editor("Editor '"@ + editor@ + "' exited with status: "@ + status@),
{
    let mut m = owned("Editor '");
    crate::text::append_str(&mut m, editor);
    crate::text::append_str(&mut m, "' exited with status: ");
    crate::text::append_str(&mut m, status);
    crate::errors::AppError::Editor(m)
}

} // verus!
