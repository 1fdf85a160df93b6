//! Reading the command bar's text: tokens first, then a command.

use vstd::prelude::*;

use crate::commands::{opt_view, pairs_view, Command, CommandView};
use crate::errors::{AppError, AppErrorView};
use crate::launch::{lemma_word_end, word_end};
use crate::text::{append_str, chars_of, drop_ws_back, lemma_find_shift, skip_ws, lowered, str_eq, string_from, to_lowercase, find_char, is_whitespace, is_ws, lemma_find_char, owned, push_char, trim, trim_string};

verus! {

/// The two quote characters of the command language.
pub open spec fn is_quote(c: char) -> bool {
    c == '"' || c == '\''
}

pub proof fn lemma_find_after(s: Seq<char>, c: char, i: int)
    requires
        0 <= i,
    ensures
        find_char(s, c, i) matches Some(j) ==> i <= j < s.len(),
{
    lemma_find_char(s, c, i);
}

/// A bare word read from index `i`: its text, with inline quotes opened and closed,
/// and the index where it ends; or the quote character left open.
pub open spec fn read_word(s: Seq<char>, i: int) -> Result<(Seq<char>, int), char>
    decreases s.len() - i,
{
    if !(0 <= i < s.len()) || is_ws(s[i]) {
        Ok((Seq::<char>::empty(), i))
    } else if is_quote(s[i]) {
        match find_char(s, s[i], i + 1) {
            None => Err(s[i]),
            Some(j) => {
                proof {
                    lemma_find_after(s, s[i], i + 1);
                }
                match read_word(s, j + 1) {
                    Ok((w, k)) => Ok((s.subrange(i + 1, j) + w, k)),
                    Err(q) => Err(q),
                }
            },
        }
    } else {
        match read_word(s, i + 1) {
            Ok((w, k)) => Ok((seq![s[i]] + w, k)),
            Err(q) => Err(q),
        }
    }
}

pub proof fn lemma_read_word_end(s: Seq<char>, i: int)
    requires
        0 <= i <= s.len(),
    ensures
        read_word(s, i) matches Ok((w, k)) ==> i <= k <= s.len(),
        read_word(s, i) matches Ok((w, k)) ==> (i < s.len() && !is_ws(s[i]) ==> i < k),
    decreases s.len() - i,
{
    if i < s.len() && !is_ws(s[i]) {
        if is_quote(s[i]) {
            lemma_find_char(s, s[i], i + 1);
            if let Some(j) = find_char(s, s[i], i + 1) {
                lemma_read_word_end(s, j + 1);
            }
        } else {
            lemma_read_word_end(s, i + 1);
        }
    }
}

/// The tokens of `s` from index `i` on, or the quote character left open.
pub open spec fn lex_from(s: Seq<char>, i: int) -> Result<Seq<Seq<char>>, char>
    decreases s.len() - i,
{
    if !(0 <= i < s.len()) {
        Ok(Seq::<Seq<char>>::empty())
    } else if is_ws(s[i]) {
        lex_from(s, i + 1)
    } else if is_quote(s[i]) {
        match find_char(s, s[i], i + 1) {
            None => Err(s[i]),
            Some(j) => {
                proof {
                    lemma_find_after(s, s[i], i + 1);
                }
                match lex_from(s, j + 1) {
                    Ok(ts) => Ok(seq![s.subrange(i + 1, j)] + ts),
                    Err(q) => Err(q),
                }
            },
        }
    } else {
        match read_word(s, i) {
            Err(q) => Err(q),
            Ok((w, k)) => {
                proof {
                    lemma_read_word_end(s, i);
                }
                match lex_from(s, k) {
                    Ok(ts) => Ok(seq![w] + ts),
                    Err(q) => Err(q),
                }
            },
        }
    }
}

/// The tokens of the command text `input`: white space separates them, a token
/// that starts with a quote runs to the matching quote, and inside a bare word
/// a quoted part keeps its white space and loses its quotes.
pub open spec fn tokens_of(input: Seq<char>) -> Result<Seq<Seq<char>>, char> {
    lex_from(trim(input), 0)
}

/// The text of the error for a quote left open.
pub open spec fn unterminated_text(q: char) -> Seq<char> {
    "Unterminated "@ + seq![q] + " quote"@
}

pub open spec fn strings_view(v: Seq<String>) -> Seq<Seq<char>> {
    v.map_values(|t: String| t@)
}

pub open spec fn with_prefix(p: Seq<Seq<char>>, r: Result<Seq<Seq<char>>, char>) -> Result<
    Seq<Seq<char>>,
    char,
> {
    match r {
        Ok(ts) => Ok(p + ts),
        Err(q) => Err(q),
    }
}

pub open spec fn word_with_prefix(p: Seq<char>, r: Result<(Seq<char>, int), char>) -> Result<
    (Seq<char>, int),
    char,
> {
    match r {
        Ok((w, k)) => Ok((p + w, k)),
        Err(q) => Err(q),
    }
}

proof fn lemma_word_prefix_assoc(a: Seq<char>, b: Seq<char>, r: Result<(Seq<char>, int), char>)
    ensures
        word_with_prefix(a, word_with_prefix(b, r)) == word_with_prefix(a + b, r),
{
    match r {
        Ok((w, k)) => {
            assert(a + (b + w) =~= (a + b) + w);
        },
        Err(_) => {},
    }
}

fn unterminated(q: char) -> (e: AppError)
    ensures
        e@ == AppErrorView::ParseError(unterminated_text(q)),
{
    let mut m = owned("Unterminated ");
    push_char(&mut m, q);
    append_str(&mut m, " quote");
    assert(m@ =~= unterminated_text(q));
    AppError::ParseError(m)
}

/// Reads the text inside a quote that opens at `i`; returns the index of the closing quote.
fn read_quoted(s: &Vec<char>, i: usize, out: &mut String) -> (r: Option<usize>)
    requires
        i < s@.len(),
    ensures
        r == (match find_char(s@, s@[i as int], i + 1) {
            Some(j) => Some(j as usize),
            None => None::<usize>,
        }),
        r matches Some(j) ==> final(out)@ == old(out)@ + s@.subrange(i + 1, j as int),
{
    let q = s[i];
    let n = s.len();
    let ghost start = out@;
    let mut k = i + 1;
    while k < n && s[k] != q
        invariant
            i < k <= s@.len(),
            n == s@.len(),
            q == s@[i as int],
            find_char(s@, q, i + 1) == find_char(s@, q, k as int),
            out@ == start + s@.subrange(i + 1, k as int),
        decreases s@.len() - k,
    {
        push_char(out, s[k]);
        k = k + 1;
        assert(out@ =~= start + s@.subrange(i + 1, k as int));
    }
    if k < s.len() {
        Some(k)
    } else {
        None
    }
}

/// Reads a bare word that starts at `i`; returns the index after it.
fn read_bare(s: &Vec<char>, i: usize, out: &mut String) -> (r: Result<usize, char>)
    requires
        i < s@.len(),
    ensures
        match r {
            Ok(k) => read_word(s@, i as int) == Ok::<(Seq<char>, int), char>(
                (final(out)@.subrange(old(out)@.len() as int, final(out)@.len() as int), k as int),
            ) && final(out)@.subrange(0, old(out)@.len() as int) == old(out)@,
            Err(q) => read_word(s@, i as int) == Err::<(Seq<char>, int), char>(q),
        },
{
    let ghost start = out@;
    let mut k = i;
    while k < s.len() && !is_whitespace(s[k])
        invariant
            i <= k <= s@.len(),
            out@.len() >= start.len(),
            out@.subrange(0, start.len() as int) == start,
            read_word(s@, i as int) == word_with_prefix(
                out@.subrange(start.len() as int, out@.len() as int),
                read_word(s@, k as int),
            ),
        decreases s@.len() - k,
    {
        let c = s[k];
        let ghost before = out@;
        if c == '"' || c == '\'' {
            match read_quoted(s, k, out) {
                None => {
                    return Err(c);
                },
                Some(j) => {
                    proof {
                        lemma_find_char(s@, c, k + 1);
                        assert(out@.subrange(0, start.len() as int) =~= start);
                        assert(out@.subrange(start.len() as int, out@.len() as int) =~= before.subrange(
                            start.len() as int,
                            before.len() as int,
                        ) + s@.subrange(k + 1, j as int));
                        lemma_word_prefix_assoc(
                            before.subrange(start.len() as int, before.len() as int),
                            s@.subrange(k + 1, j as int),
                            read_word(s@, j + 1),
                        );
                    }
                    k = j + 1;
                },
            }
        } else {
            push_char(out, c);
            proof {
                assert(out@.subrange(0, start.len() as int) =~= start);
                assert(out@.subrange(start.len() as int, out@.len() as int) =~= before.subrange(
                    start.len() as int,
                    before.len() as int,
                ) + seq![c]);
                lemma_word_prefix_assoc(
                    before.subrange(start.len() as int, before.len() as int),
                    seq![c],
                    read_word(s@, k + 1),
                );
            }
            k = k + 1;
        }
    }
    proof {
        assert(read_word(s@, k as int) == Ok::<(Seq<char>, int), char>((Seq::<char>::empty(), k as int)));
        assert(out@.subrange(start.len() as int, out@.len() as int) + Seq::<char>::empty()
            =~= out@.subrange(start.len() as int, out@.len() as int));
    }
    Ok(k)
}

/// Splits the command text into tokens.
pub fn tokenize(input: &str) -> (r: Result<Vec<String>, AppError>)
    ensures
        match r {
            Ok(ts) => tokens_of(input@) == Ok::<Seq<Seq<char>>, char>(strings_view(ts@)),
            Err(e) => exists|q: char|
                tokens_of(input@) == Err::<Seq<Seq<char>>, char>(q) && e@ == AppErrorView::ParseError(
                    unterminated_text(q),
                ),
        },
{
    let trimmed = trim_string(input);
    let s = chars_of(trimmed.as_str());
    let mut tokens: Vec<String> = Vec::new();
    let mut i: usize = 0;
    while i < s.len()
        invariant
            i <= s@.len(),
            s@ == trim(input@),
            tokens_of(input@) == with_prefix(strings_view(tokens@), lex_from(s@, i as int)),
        decreases s@.len() - i,
    {
        let c = s[i];
        if is_whitespace(c) {
            i = i + 1;
        } else if c == '"' || c == '\'' {
            let mut tok = String::new();
            match read_quoted(&s, i, &mut tok) {
                None => {
                    return Err(unterminated(c));
                },
                Some(j) => {
                    proof {
                        lemma_find_char(s@, c, i + 1);
                        assert(tok@ =~= s@.subrange(i + 1, j as int));
                    }
                    let ghost old_tokens = tokens@;
                    tokens.push(tok);
                    proof {
                        assert(strings_view(tokens@) =~= strings_view(old_tokens) + seq![
                            s@.subrange(i + 1, j as int),
                        ]);
                        match lex_from(s@, j + 1) {
                            Ok(ts) => {
                                assert(strings_view(old_tokens) + (seq![s@.subrange(i + 1, j as int)] + ts)
                                    =~= strings_view(tokens@) + ts);
                            },
                            Err(_) => {},
                        }
                    }
                    i = j + 1;
                },
            }
        } else {
            let mut tok = String::new();
            match read_bare(&s, i, &mut tok) {
                Err(q) => {
                    return Err(unterminated(q));
                },
                Ok(k) => {
                    proof {
                        lemma_read_word_end(s@, i as int);
                        assert(tok@.subrange(0, tok@.len() as int) =~= tok@);
                    }
                    let ghost old_tokens = tokens@;
                    tokens.push(tok);
                    proof {
                        assert(strings_view(tokens@) =~= strings_view(old_tokens) + seq![
                            tokens@.last()@,
                        ]);
                        match lex_from(s@, k as int) {
                            Ok(ts) => {
                                assert(strings_view(old_tokens) + (seq![tokens@.last()@] + ts)
                                    =~= strings_view(tokens@) + ts);
                            },
                            Err(_) => {},
                        }
                    }
                    i = k;
                },
            }
        }
    }
    proof {
        assert(strings_view(tokens@) + Seq::<Seq<char>>::empty() =~= strings_view(tokens@));
    }
    Ok(tokens)
}


/// The token at `i`, if there is one.
pub open spec fn nth_token(ts: Seq<Seq<char>>, i: int) -> Option<Seq<char>> {
    if 0 <= i < ts.len() {
        Some(ts[i])
    } else {
        None
    }
}

/// A `key:value` token split at its first colon.
pub open spec fn split_field(t: Seq<char>) -> Option<(Seq<char>, Seq<char>)> {
    match find_char(t, ':', 0) {
        Some(p) => Some((t.subrange(0, p), t.subrange(p + 1, t.len() as int))),
        None => None,
    }
}

/// The fields of an `edit` command: every token with a colon, split at it, in order;
/// tokens without a colon are passed over.
pub open spec fn edit_fields(ts: Seq<Seq<char>>) -> Seq<(Seq<char>, Seq<char>)>
    decreases ts.len(),
{
    if ts.len() == 0 {
        Seq::<(Seq<char>, Seq<char>)>::empty()
    } else {
        let rest = edit_fields(ts.drop_last());
        match split_field(ts.last()) {
            Some(f) => rest.push(f),
            None => rest,
        }
    }
}

/// The usage line of a command that takes one argument.
pub open spec fn one_arg_usage(cmd: Seq<char>) -> Seq<char> {
    "Usage: "@ + cmd + " \"<id>\""@
}

/// The usage line of `new`.
pub open spec fn new_usage() -> Seq<char> {
    "Usage: new \"<title>\" [\"<description>\"] [\"<due-date>\"]"@
}

/// The usage line of `edit`.
pub open spec fn edit_usage() -> Seq<char> {
    "Usage: edit <id> title:\"new title\" description:\"desc\""@
}

/// The text of the error for a command name that is not known.
pub open spec fn unknown_text(name: Seq<char>) -> Seq<char> {
    "Unknown command: '"@ + name + "'"@
}

/// The argument of a one-argument command, or its usage error.
pub open spec fn one_arg(ts: Seq<Seq<char>>, cmd: Seq<char>) -> Result<Seq<char>, AppErrorView> {
    if ts.len() < 2 {
        Err(AppErrorView::CommandError(one_arg_usage(cmd)))
    } else {
        Ok(ts[1])
    }
}

/// Whether the token `t` gives a due date written `due:<date>`.
pub open spec fn is_due_token(t: Seq<char>) -> bool {
    t.len() >= 4 && t.subrange(0, 4) == seq!['d', 'u', 'e', ':']
}

/// The date that the token `t` gives: what follows `due:`, or the whole token.
pub open spec fn due_value(t: Seq<char>) -> Seq<char> {
    if is_due_token(t) {
        t.subrange(4, t.len() as int)
    } else {
        t
    }
}

/// The `new` command of the tokens `ts` (at least two): the title, then the description
/// and the due date in that order, where the due date may be written `due:<date>` and
/// then may also come in place of the description.
pub open spec fn new_command(ts: Seq<Seq<char>>) -> CommandView {
    if ts.len() > 2 && is_due_token(ts[2]) {
        CommandView::New { title: ts[1], description: Seq::<char>::empty(), due: Some(due_value(ts[2])) }
    } else {
        CommandView::New {
            title: ts[1],
            description: if ts.len() > 2 {
                ts[2]
            } else {
                Seq::<char>::empty()
            },
            due: match nth_token(ts, 3) {
                Some(d) => Some(due_value(d)),
                None => None,
            },
        }
    }
}

/// The command that the tokens `ts` (at least one) stand for. The command name
/// is compared in lower case; `rm`, `cp`, `ls`, `mv`, `refresh`, `q` and `exit` are aliases.
pub open spec fn command_of(ts: Seq<Seq<char>>) -> Result<CommandView, AppErrorView> {
    let name = lowered(ts[0]);
    if name == "new"@ {
        if ts.len() < 2 {
            Err(AppErrorView::CommandError(new_usage()))
        } else {
            Ok(new_command(ts))
        }
    } else if name == "open"@ {
        match one_arg(ts, "open"@) {
            Ok(a) => Ok(CommandView::Open(a)),
            Err(e) => Err(e),
        }
    } else if name == "edit"@ {
        if ts.len() < 2 {
            Err(AppErrorView::CommandError(edit_usage()))
        } else {
            Ok(CommandView::Edit { id: ts[1], fields: edit_fields(ts.subrange(2, ts.len() as int)) })
        }
    } else if name == "delete"@ || name == "rm"@ {
        match one_arg(ts, "delete"@) {
            Ok(a) => Ok(CommandView::Delete(a)),
            Err(e) => Err(e),
        }
    } else if name == "done"@ {
        match one_arg(ts, "done"@) {
            Ok(a) => Ok(CommandView::Done(a)),
            Err(e) => Err(e),
        }
    } else if name == "undone"@ {
        match one_arg(ts, "undone"@) {
            Ok(a) => Ok(CommandView::Undone(a)),
            Err(e) => Err(e),
        }
    } else if name == "clone"@ || name == "cp"@ {
        match one_arg(ts, "clone"@) {
            Ok(a) => Ok(CommandView::Clone(a)),
            Err(e) => Err(e),
        }
    } else if name == "list"@ || name == "ls"@ {
        Ok(CommandView::List(nth_token(ts, 1)))
    } else if name == "config"@ {
        Ok(CommandView::Config { key: nth_token(ts, 1), value: nth_token(ts, 2) })
    } else if name == "migrate"@ || name == "mv"@ {
        match one_arg(ts, "migrate"@) {
            Ok(a) => Ok(CommandView::Migrate(a)),
            Err(e) => Err(e),
        }
    } else if name == "reload"@ || name == "refresh"@ {
        Ok(CommandView::Reload)
    } else if name == "help"@ {
        Ok(CommandView::Help)
    } else if name == "quit"@ || name == "q"@ || name == "exit"@ {
        Ok(CommandView::Quit)
    } else {
        Err(AppErrorView::CommandError(unknown_text(name)))
    }
}

/// What `parse` gives for the command text `input`.
pub open spec fn parse_result(input: Seq<char>) -> Result<CommandView, AppErrorView> {
    match tokens_of(input) {
        Err(q) => Err(AppErrorView::ParseError(unterminated_text(q))),
        Ok(ts) => if ts.len() == 0 {
            Err(AppErrorView::CommandError("No command entered"@))
        } else {
            command_of(ts)
        },
    }
}

/// The views of the command names, spelled out.
pub proof fn lemma_command_names()
    ensures
        "new"@ == seq!['n', 'e', 'w'],
        "open"@ == seq!['o', 'p', 'e', 'n'],
        "edit"@ == seq!['e', 'd', 'i', 't'],
        "delete"@ == seq!['d', 'e', 'l', 'e', 't', 'e'],
        "rm"@ == seq!['r', 'm'],
        "done"@ == seq!['d', 'o', 'n', 'e'],
        "undone"@ == seq!['u', 'n', 'd', 'o', 'n', 'e'],
        "clone"@ == seq!['c', 'l', 'o', 'n', 'e'],
        "cp"@ == seq!['c', 'p'],
        "list"@ == seq!['l', 'i', 's', 't'],
        "ls"@ == seq!['l', 's'],
        "config"@ == seq!['c', 'o', 'n', 'f', 'i', 'g'],
        "migrate"@ == seq!['m', 'i', 'g', 'r', 'a', 't', 'e'],
        "mv"@ == seq!['m', 'v'],
        "reload"@ == seq!['r', 'e', 'l', 'o', 'a', 'd'],
        "refresh"@ == seq!['r', 'e', 'f', 'r', 'e', 's', 'h'],
        "help"@ == seq!['h', 'e', 'l', 'p'],
        "quit"@ == seq!['q', 'u', 'i', 't'],
        "q"@ == seq!['q'],
        "exit"@ == seq!['e', 'x', 'i', 't'],
{
    reveal_strlit("new");
    reveal_strlit("open");
    reveal_strlit("edit");
    reveal_strlit("delete");
    reveal_strlit("rm");
    reveal_strlit("done");
    reveal_strlit("undone");
    reveal_strlit("clone");
    reveal_strlit("cp");
    reveal_strlit("list");
    reveal_strlit("ls");
    reveal_strlit("config");
    reveal_strlit("migrate");
    reveal_strlit("mv");
    reveal_strlit("reload");
    reveal_strlit("refresh");
    reveal_strlit("help");
    reveal_strlit("quit");
    reveal_strlit("q");
    reveal_strlit("exit");
}

/// The token at `i` of `tokens`, copied, if there is one.
fn token_at(tokens: &[String], i: usize) -> (r: Option<String>)
    ensures
        opt_view(r) == nth_token(strings_view(tokens@), i as int),
{
    if i < tokens.len() {
        Some(tokens[i].clone())
    } else {
        None
    }
}

/// Splits `t` at its first colon.
fn split_at_colon(t: &String) -> (r: Option<(String, String)>)
    ensures
        match r {
            Some(p) => split_field(t@) == Some((p.0@, p.1@)),
            None => split_field(t@) is None,
        },
{
    let v = chars_of(t.as_str());
    let n = v.len();
    let mut p: usize = 0;
    while p < n && v[p] != ':'
        invariant
            p <= n == v@.len(),
            v@ == t@,
            find_char(t@, ':', 0) == find_char(t@, ':', p as int),
        decreases n - p,
    {
        p = p + 1;
    }
    if p < n {
        Some((string_from(&v, 0, p), string_from(&v, p + 1, n)))
    } else {
        None
    }
}

fn parse_new(tokens: &[String]) -> (r: Result<Command, AppError>)
    requires
        tokens@.len() > 0,
        lowered(tokens@[0]@) == "new"@,
    ensures
        match r {
            Ok(c) => command_of(strings_view(tokens@)) == Ok::<CommandView, AppErrorView>(c@),
            Err(e) => command_of(strings_view(tokens@)) == Err::<CommandView, AppErrorView>(e@),
        },
{
    if tokens.len() < 2 {
        return Err(
            AppError::CommandError(
                owned("Usage: new \"<title>\" [\"<description>\"] [\"<due-date>\"]"),
            ),
        );
    }
    let title = tokens[1].clone();
    if tokens.len() > 2 {
        let (is_due, value) = due_of(&tokens[2]);
        if is_due {
            return Ok(Command::New { title, description: String::new(), due: Some(value) });
        }
    }
    let description = if tokens.len() > 2 {
        tokens[2].clone()
    } else {
        String::new()
    };
    let due = if tokens.len() > 3 {
        Some(due_of(&tokens[3]).1)
    } else {
        None
    };
    Ok(Command::New { title, description, due })
}

/// Whether `t` is written `due:<date>`, and the date it gives.
fn due_of(t: &String) -> (r: (bool, String))
    ensures
        r.0 == is_due_token(t@),
        r.1@ == due_value(t@),
{
    let v = chars_of(t.as_str());
    let n = v.len();
    if n >= 4 && v[0] == 'd' && v[1] == 'u' && v[2] == 'e' && v[3] == ':' {
        proof {
            assert(t@.subrange(0, 4) =~= seq!['d', 'u', 'e', ':']);
        }
        (true, string_from(&v, 4, n))
    } else {
        proof {
            if n >= 4 && t@.subrange(0, 4) == seq!['d', 'u', 'e', ':'] {
                assert(t@.subrange(0, 4)[0] == 'd');
                assert(t@.subrange(0, 4)[1] == 'u');
                assert(t@.subrange(0, 4)[2] == 'e');
                assert(t@.subrange(0, 4)[3] == ':');
            }
        }
        (false, t.clone())
    }
}

fn parse_one_arg(tokens: &[String], cmd: &str) -> (r: Result<Command, AppError>)
    requires
        cmd@ == "open"@ || cmd@ == "delete"@ || cmd@ == "done"@ || cmd@ == "undone"@ || cmd@
            == "clone"@ || cmd@ == "migrate"@,
    ensures
        match r {
            Ok(c) => one_arg(strings_view(tokens@), cmd@) matches Ok(a) && c@ == (if cmd@
                == "open"@ {
                CommandView::Open(a)
            } else if cmd@ == "delete"@ {
                CommandView::Delete(a)
            } else if cmd@ == "done"@ {
                CommandView::Done(a)
            } else if cmd@ == "undone"@ {
                CommandView::Undone(a)
            } else if cmd@ == "clone"@ {
                CommandView::Clone(a)
            } else {
                CommandView::Migrate(a)
            }),
            Err(e) => one_arg(strings_view(tokens@), cmd@) == Err::<Seq<char>, AppErrorView>(e@),
        },
{
    if tokens.len() < 2 {
        let mut m = owned("Usage: ");
        append_str(&mut m, cmd);
        append_str(&mut m, " \"<id>\"");
        return Err(AppError::CommandError(m));
    }
    let id = tokens[1].clone();
    if str_eq(cmd, "open") {
        Ok(Command::Open(id))
    } else if str_eq(cmd, "delete") {
        Ok(Command::Delete(id))
    } else if str_eq(cmd, "done") {
        Ok(Command::Done(id))
    } else if str_eq(cmd, "undone") {
        Ok(Command::Undone(id))
    } else if str_eq(cmd, "clone") {
        Ok(Command::Clone(id))
    } else {
        Ok(Command::Migrate(id))
    }
}

fn parse_edit(tokens: &[String]) -> (r: Result<Command, AppError>)
    requires
        tokens@.len() > 0,
        lowered(tokens@[0]@) == "edit"@,
    ensures
        match r {
            Ok(c) => command_of(strings_view(tokens@)) == Ok::<CommandView, AppErrorView>(c@),
            Err(e) => command_of(strings_view(tokens@)) == Err::<CommandView, AppErrorView>(e@),
        },
{
    proof {
        lemma_command_names();
    }
    if tokens.len() < 2 {
        return Err(
            AppError::CommandError(owned("Usage: edit <id> title:\"new title\" description:\"desc\"")),
        );
    }
    let id = tokens[1].clone();
    let mut fields: Vec<(String, String)> = Vec::new();
    let ghost ts = strings_view(tokens@);
    let n = tokens.len();
    let mut i: usize = 2;
    while i < n
        invariant
            2 <= i <= n == tokens@.len(),
            ts == strings_view(tokens@),
            pairs_view(fields@) == edit_fields(ts.subrange(2, i as int)),
        decreases n - i,
    {
        let ghost before = fields@;
        match split_at_colon(&tokens[i]) {
            Some(p) => {
                fields.push(p);
            },
            None => {},
        }
        proof {
            assert(ts.subrange(2, i + 1).drop_last() =~= ts.subrange(2, i as int));
            assert(ts.subrange(2, i + 1).last() == tokens@[i as int]@);
            assert(pairs_view(fields@) =~= edit_fields(ts.subrange(2, i + 1)));
        }
        i = i + 1;
    }
    Ok(Command::Edit { id, fields })
}

fn parse_list(tokens: &[String]) -> (r: Result<Command, AppError>)
    ensures
        r matches Ok(c) && c@ == (CommandView::List(nth_token(strings_view(tokens@), 1))),
{
    let filter = token_at(tokens, 1);
    Ok(Command::List(filter))
}

fn parse_config(tokens: &[String]) -> (r: Result<Command, AppError>)
    ensures
        r matches Ok(c) && c@ == (CommandView::Config {
            key: nth_token(strings_view(tokens@), 1),
            value: nth_token(strings_view(tokens@), 2),
        }),
{
    let key = token_at(tokens, 1);
    let value = token_at(tokens, 2);
    Ok(Command::Config { key, value })
}

/// Reads a command from the text of the command bar.
pub fn parse(input: &str) -> (r: Result<Command, AppError>)
    ensures
        match r {
            Ok(c) => parse_result(input@) == Ok::<CommandView, AppErrorView>(c@),
            Err(e) => parse_result(input@) == Err::<CommandView, AppErrorView>(e@),
        },
{
    let tokens = match tokenize(input) {
        Ok(ts) => ts,
        Err(e) => {
            return Err(e);
        },
    };
    if tokens.len() == 0 {
        return Err(AppError::CommandError(owned("No command entered")));
    }
    let ghost ts = strings_view(tokens@);
    assert(ts[0] == tokens@[0]@);
    proof {
        lemma_command_names();
    }
    let name = to_lowercase(tokens[0].as_str());
    let n = name.as_str();
    let t = tokens.as_slice();
    if str_eq(n, "new") {
        parse_new(t)
    } else if str_eq(n, "open") {
        parse_one_arg(t, "open")
    } else if str_eq(n, "edit") {
        parse_edit(t)
    } else if str_eq(n, "delete") || str_eq(n, "rm") {
        parse_one_arg(t, "delete")
    } else if str_eq(n, "done") {
        parse_one_arg(t, "done")
    } else if str_eq(n, "undone") {
        parse_one_arg(t, "undone")
    } else if str_eq(n, "clone") || str_eq(n, "cp") {
        parse_one_arg(t, "clone")
    } else if str_eq(n, "list") || str_eq(n, "ls") {
        parse_list(t)
    } else if str_eq(n, "config") {
        parse_config(t)
    } else if str_eq(n, "migrate") || str_eq(n, "mv") {
        parse_one_arg(t, "migrate")
    } else if str_eq(n, "reload") || str_eq(n, "refresh") {
        Ok(Command::Reload)
    } else if str_eq(n, "help") {
        Ok(Command::Help)
    } else if str_eq(n, "quit") || str_eq(n, "q") || str_eq(n, "exit") {
        Ok(Command::Quit)
    } else {
        let mut m = owned("Unknown command: '");
        append_str(&mut m, n);
        append_str(&mut m, "'");
        assert(m@ =~= unknown_text(name@));
        Err(AppError::CommandError(m))
    }
}

/// A token between double quotes.
pub open spec fn quoted(t: Seq<char>) -> Seq<char> {
    seq!['"'] + t + seq!['"']
}

/// The tokens `ts`, each between double quotes, separated by single spaces.
pub open spec fn quoted_line(ts: Seq<Seq<char>>) -> Seq<char>
    decreases ts.len(),
{
    if ts.len() == 0 {
        Seq::<char>::empty()
    } else if ts.len() == 1 {
        quoted(ts[0])
    } else {
        quoted(ts[0]) + seq![' '] + quoted_line(ts.drop_first())
    }
}

/// Reading a word from `i` reads the same from the text without its first `d` characters.
proof fn lemma_word_suffix(s: Seq<char>, d: int, i: int)
    requires
        0 <= d <= i,
        d <= s.len(),
    ensures
        read_word(s, i) == (match read_word(s.subrange(d, s.len() as int), i - d) {
            Ok((w, k)) => Ok((w, k + d)),
            Err(q) => Err(q),
        }),
    decreases s.len() - i,
{
    let t = s.subrange(d, s.len() as int);
    if 0 <= i < s.len() && !is_ws(s[i]) {
        assert(t[i - d] == s[i]);
        if is_quote(s[i]) {
            lemma_find_shift(s, d, s[i], i + 1);
            lemma_find_char(s, s[i], i + 1);
            if let Some(j) = find_char(s, s[i], i + 1) {
                lemma_word_suffix(s, d, j + 1);
                assert(t.subrange(i - d + 1, j - d) =~= s.subrange(i + 1, j));
            }
        } else {
            lemma_word_suffix(s, d, i + 1);
        }
    }
}

/// Reading tokens from `i` reads the same from the text without its first `d` characters.
proof fn lemma_lex_suffix(s: Seq<char>, d: int, i: int)
    requires
        0 <= d <= i,
        d <= s.len(),
    ensures
        lex_from(s, i) == lex_from(s.subrange(d, s.len() as int), i - d),
    decreases s.len() - i,
{
    let t = s.subrange(d, s.len() as int);
    if 0 <= i < s.len() {
        assert(t[i - d] == s[i]);
        if is_ws(s[i]) {
            lemma_lex_suffix(s, d, i + 1);
        } else if is_quote(s[i]) {
            lemma_find_shift(s, d, s[i], i + 1);
            lemma_find_char(s, s[i], i + 1);
            if let Some(j) = find_char(s, s[i], i + 1) {
                lemma_lex_suffix(s, d, j + 1);
                assert(t.subrange(i - d + 1, j - d) =~= s.subrange(i + 1, j));
            }
        } else {
            lemma_word_suffix(s, d, i);
            lemma_read_word_end(s, i);
            if let Ok((w, k)) = read_word(s, i) {
                lemma_lex_suffix(s, d, k);
            }
        }
    }
}

/// The first double quote after the opening one of a quoted token is its closing one.
proof fn lemma_find_closing(s: Seq<char>, t: Seq<char>)
    requires
        s.len() >= t.len() as int + 2,
        s.subrange(0, t.len() as int + 2) == quoted(t),
        !t.contains('"'),
    ensures
        find_char(s, '"', 1) == Some(t.len() as int + 1),
{
    assert forall|k: int| 1 <= k < t.len() as int + 1 implies #[trigger] s[k] != '"' by {
        assert(s[k] == s.subrange(0, t.len() as int + 2)[k]);
        assert(quoted(t)[k] == t[k - 1]);
        if s[k] == '"' {
            assert(t.contains(t[k - 1]));
        }
    }
    assert(s[t.len() as int + 1] == s.subrange(0, t.len() as int + 2)[t.len() as int + 1]);
    lemma_find_first(s, '"', 1, t.len() as int + 1);
}

proof fn lemma_find_first(s: Seq<char>, c: char, i: int, j: int)
    requires
        0 <= i <= j < s.len(),
        s[j] == c,
        forall|k: int| i <= k < j ==> #[trigger] s[k] != c,
    ensures
        find_char(s, c, i) == Some(j),
    decreases j - i,
{
    if i < j {
        lemma_find_first(s, c, i + 1, j);
    }
}

proof fn lemma_lex_quoted_line(ts: Seq<Seq<char>>)
    requires
        forall|i: int| 0 <= i < ts.len() ==> !(#[trigger] ts[i]).contains('"'),
    ensures
        lex_from(quoted_line(ts), 0) == Ok::<Seq<Seq<char>>, char>(ts),
    decreases ts.len(),
{
    if ts.len() == 0 {
        assert(ts =~= Seq::<Seq<char>>::empty());
    } else {
        let s = quoted_line(ts);
        let t0 = ts[0];
        let m = t0.len() as int;
        assert(!t0.contains('"'));
        assert(s.subrange(0, m + 2) =~= quoted(t0));
        assert(s[0] == '"');
        lemma_find_closing(s, t0);
        assert(s.subrange(1, m + 1) =~= t0);
        assert(!is_ws(s[0]) && is_quote(s[0]));
        if ts.len() == 1 {
            assert(s.len() == m + 2);
            assert(lex_from(s, m + 2) == Ok::<Seq<Seq<char>>, char>(Seq::<Seq<char>>::empty()));
            assert(seq![t0] + Seq::<Seq<char>>::empty() =~= ts);
        } else {
            let rest = ts.drop_first();
            assert forall|i: int| 0 <= i < rest.len() implies !(#[trigger] rest[i]).contains('"') by {
                assert(rest[i] == ts[i + 1]);
            }
            lemma_lex_quoted_line(rest);
            assert(s[m + 2] == ' ');
            lemma_lex_suffix(s, m + 3, m + 3);
            assert(s.subrange(m + 3, s.len() as int) =~= quoted_line(rest));
            assert(is_ws(s[m + 2]));
            assert(lex_from(s, m + 2) == lex_from(s, m + 3));
            assert(lex_from(s, m + 3) == Ok::<Seq<Seq<char>>, char>(rest));
            assert(seq![t0] + rest =~= ts);
        }
        assert(lex_from(s, 0) == with_prefix(seq![t0], lex_from(s, m + 2)));
    }
}

/// Tokens without double quotes, each written between double quotes and separated by
/// spaces, are read back as they were.
pub proof fn quoted_tokens_round_trip(ts: Seq<Seq<char>>)
    requires
        forall|i: int| 0 <= i < ts.len() ==> !(#[trigger] ts[i]).contains('"'),
    ensures
        tokens_of(quoted_line(ts)) == Ok::<Seq<Seq<char>>, char>(ts),
{
    let s = quoted_line(ts);
    lemma_lex_quoted_line(ts);
    if ts.len() > 0 {
        assert(s[0] == '"');
        assert(s[s.len() - 1] == '"') by {
            lemma_quoted_line_last(ts);
        }
        assert(!is_ws(s[0]));
        assert(skip_ws(s, 0) == 0);
        assert(drop_ws_back(s.subrange(0, s.len() as int), s.len() as int) == s.len()) by {
            assert(s.subrange(0, s.len() as int) =~= s);
        }
        assert(s.subrange(0, s.len() as int) =~= s);
        assert(trim(s) =~= s);
    } else {
        assert(trim(s) =~= s);
    }
}

proof fn lemma_quoted_line_last(ts: Seq<Seq<char>>)
    requires
        ts.len() > 0,
    ensures
        quoted_line(ts).len() > 0,
        quoted_line(ts)[quoted_line(ts).len() - 1] == '"',
    decreases ts.len(),
{
    if ts.len() > 1 {
        lemma_quoted_line_last(ts.drop_first());
    }
}

/// The words of `s` from index `i` on that white space separates, as
/// `str::split_whitespace` gives them.
pub open spec fn words_from(s: Seq<char>, i: int) -> Seq<Seq<char>>
    decreases s.len() - i,
{
    if !(0 <= i < s.len()) {
        Seq::<Seq<char>>::empty()
    } else if is_ws(s[i]) {
        words_from(s, i + 1)
    } else {
        proof {
            lemma_word_end(s, i);
        }
        seq![s.subrange(i, word_end(s, i))] + words_from(s, word_end(s, i))
    }
}

/// Without quotes, a bare word runs to the next white space.
proof fn lemma_read_plain_word(s: Seq<char>, i: int)
    requires
        0 <= i <= s.len(),
        forall|k: int| i <= k < s.len() ==> !is_quote(#[trigger] s[k]),
    ensures
        read_word(s, i) == Ok::<(Seq<char>, int), char>((s.subrange(i, word_end(s, i)), word_end(s, i))),
    decreases s.len() - i,
{
    lemma_word_end(s, i);
    if i < s.len() && !is_ws(s[i]) {
        lemma_read_plain_word(s, i + 1);
        lemma_word_end(s, i + 1);
        assert(s.subrange(i, word_end(s, i)) =~= seq![s[i]] + s.subrange(i + 1, word_end(s, i + 1)));
    } else {
        assert(s.subrange(i, i) =~= Seq::<char>::empty());
    }
}

/// Without quotes, the tokens are the words that white space separates.
proof fn lemma_lex_plain(s: Seq<char>, i: int)
    requires
        0 <= i <= s.len(),
        forall|k: int| i <= k < s.len() ==> !is_quote(#[trigger] s[k]),
    ensures
        lex_from(s, i) == Ok::<Seq<Seq<char>>, char>(words_from(s, i)),
    decreases s.len() - i,
{
    if i < s.len() {
        if is_ws(s[i]) {
            lemma_lex_plain(s, i + 1);
        } else {
            lemma_read_plain_word(s, i);
            lemma_word_end(s, i);
            lemma_lex_plain(s, word_end(s, i));
        }
    }
}

/// Leading white space holds no word.
proof fn lemma_words_skip(s: Seq<char>, i: int, a: int)
    requires
        0 <= i <= a <= s.len(),
        forall|k: int| i <= k < a ==> is_ws(#[trigger] s[k]),
    ensures
        words_from(s, i) == words_from(s, a),
    decreases a - i,
{
    if i < a {
        lemma_words_skip(s, i + 1, a);
    }
}

/// Where a word ends, counted in `s` without its first `d` characters.
proof fn lemma_word_end_shift(s: Seq<char>, d: int, i: int)
    requires
        0 <= d <= i <= s.len(),
    ensures
        word_end(s, i) == word_end(s.subrange(d, s.len() as int), i - d) + d,
    decreases s.len() - i,
{
    if i < s.len() && !is_ws(s[i]) {
        lemma_word_end_shift(s, d, i + 1);
    }
}

/// The words from `i` are those of `s` without its first `d` characters, from `i - d`.
proof fn lemma_words_shift(s: Seq<char>, d: int, i: int)
    requires
        0 <= d <= i <= s.len(),
    ensures
        words_from(s, i) == words_from(s.subrange(d, s.len() as int), i - d),
    decreases s.len() - i,
{
    let t = s.subrange(d, s.len() as int);
    if i < s.len() {
        assert(t[i - d] == s[i]);
        if is_ws(s[i]) {
            lemma_words_shift(s, d, i + 1);
        } else {
            lemma_word_end_shift(s, d, i);
            lemma_word_end(s, i);
            lemma_words_shift(s, d, word_end(s, i));
            assert(s.subrange(i, word_end(s, i)) =~= t.subrange(i - d, word_end(t, i - d)));
        }
    }
}

/// Cutting `s` at `b`, where white space or its end follows, leaves the ends of words before `b`.
proof fn lemma_word_end_cut(s: Seq<char>, b: int, i: int)
    requires
        0 <= i <= b <= s.len(),
        b < s.len() ==> is_ws(s[b]),
    ensures
        word_end(s.subrange(0, b), i) == word_end(s, i),
    decreases b - i,
{
    if i < b && !is_ws(s[i]) {
        lemma_word_end_cut(s, b, i + 1);
    }
}

/// White space to the end holds no word.
proof fn lemma_words_blank(s: Seq<char>, i: int)
    requires
        0 <= i,
        forall|k: int| i <= k < s.len() ==> is_ws(#[trigger] s[k]),
    ensures
        words_from(s, i) == Seq::<Seq<char>>::empty(),
    decreases s.len() - i,
{
    if i < s.len() {
        lemma_words_blank(s, i + 1);
    }
}

/// Cutting off trailing white space at `b` keeps the words before it.
proof fn lemma_words_cut(s: Seq<char>, b: int, i: int)
    requires
        0 <= i <= b <= s.len(),
        forall|k: int| b <= k < s.len() ==> is_ws(#[trigger] s[k]),
    ensures
        words_from(s.subrange(0, b), i) == words_from(s, i),
    decreases b - i,
{
    let t = s.subrange(0, b);
    if i < b {
        assert(t[i] == s[i]);
        if is_ws(s[i]) {
            lemma_words_cut(s, b, i + 1);
        } else {
            lemma_word_end_cut(s, b, i);
            lemma_word_end(s, i);
            lemma_word_end(t, i);
            lemma_words_cut(s, b, word_end(s, i));
            assert(t.subrange(i, word_end(t, i)) =~= s.subrange(i, word_end(s, i)));
        }
    } else {
        lemma_words_blank(s, b);
    }
}

/// Text without quote characters reads as the words that white space separates in it
/// (none for blank text).
pub proof fn plain_text_tokens_are_words(input: Seq<char>)
    requires
        !input.contains('"'),
        !input.contains('\''),
    ensures
        tokens_of(input) == Ok::<Seq<Seq<char>>, char>(words_from(input, 0)),
{
    let a = crate::text::skip_ws(input, 0);
    crate::text::lemma_skip_ws_bounds(input, 0);
    let t1 = input.subrange(a, input.len() as int);
    let b = drop_ws_back(t1, t1.len() as int);
    crate::text::lemma_drop_ws_back_bounds(t1, t1.len() as int);
    let t = t1.subrange(0, b);
    assert(t == trim(input));
    assert forall|k: int| 0 <= k < t.len() implies !is_quote(#[trigger] t[k]) by {
        assert(t[k] == input[a + k]);
        if is_quote(t[k]) {
            assert(input.contains(input[a + k]));
        }
    }
    lemma_lex_plain(t, 0);
    lemma_words_cut(t1, b, 0);
    lemma_words_shift(input, a, a);
    lemma_words_skip(input, 0, a);
}

} // verus!
