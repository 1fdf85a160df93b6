//! Paths of the data directory: joining, the home directory behind a leading `~`, and
//! the setting written after the tasks have moved.

use vstd::prelude::*;

use crate::commands::opt_view;
use crate::text::{append_str, chars_of, owned, push_char, string_from, utf8_width};

verus! {

/// `name` placed in the directory `base`, as `Path::join` places a relative or an
/// absolute path on Unix.
pub open spec fn path_join(base: Seq<char>, name: Seq<char>) -> Seq<char> {
    if name.len() > 0 && name[0] == '/' {
        name
    } else if base.len() == 0 || base.last() == '/' {
        base + name
    } else {
        base + seq!['/'] + name
    }
}

/// Places `name` in the directory `base`.
pub fn join_path(base: &str, name: &str) -> (r: String)
    ensures
        r@ == path_join(base@, name@),
{
    let v = chars_of(name);
    let b = chars_of(base);
    if v.len() > 0 && v[0] == '/' {
        return owned(name);
    }
    let mut r = owned(base);
    if !(b.len() == 0 || b[b.len() - 1] == '/') {
        push_char(&mut r, '/');
    }
    append_str(&mut r, name);
    proof {
        if !(b@.len() == 0 || b@.last() == '/') {
            assert(base@.push('/') + name@ =~= base@ + seq!['/'] + name@);
        }
    }
    r
}

/// Whether a leading `~` of `path` can be cut off together with the character after it,
/// which must be there and take one byte. (Without a home directory nothing is cut.)
pub open spec fn home_cut_allowed(path: Seq<char>) -> bool {
    path.len() > 0 && path[0] == '~' ==> path.len() >= 2 && utf8_width(path[1]) == 1
}

/// The directory that `path` names: a leading `~` and the character after it stand for
/// the home directory `home`, which must then be known.
pub open spec fn expand_home(path: Seq<char>, home: Option<Seq<char>>) -> Option<Seq<char>> {
    if path.len() > 0 && path[0] == '~' {
        match home {
            Some(h) => Some(path_join(h, path.subrange(2, path.len() as int))),
            None => None,
        }
    } else {
        Some(path)
    }
}

/// The directory that `path` names, given the home directory (`None` when it is needed
/// and not known).
pub fn expanded_path(path: &str, home: Option<String>) -> (r: Option<String>)
    requires
        home is Some ==> home_cut_allowed(path@),
    ensures
        opt_view(r) == expand_home(path@, opt_view(home)),
{
    let v = chars_of(path);
    let n = v.len();
    if n > 0 && v[0] == '~' {
        match home {
            Some(h) => {
                let rest = string_from(&v, 2, n);
                Some(join_path(h.as_str(), rest.as_str()))
            },
            None => None,
        }
    } else {
        Some(owned(path))
    }
}

/// Where moving the tasks to the directory typed as `path` puts them: the directory
/// itself, home expanded, and the `easytodo` directory inside it.
pub open spec fn migration_dirs(path: Seq<char>, home: Option<Seq<char>>) -> Option<(Seq<char>, Seq<char>)> {
    match expand_home(path, home) {
        Some(d) => Some((d, path_join(d, "easytodo"@))),
        None => None,
    }
}

/// The directory typed and the directory the tasks move to, or `None` when the home
/// directory is needed and not known.
pub fn migration_target(path: &str, home: Option<String>) -> (r: Option<(String, String)>)
    requires
        home is Some ==> home_cut_allowed(path@),
    ensures
        match r {
            Some((d, t)) => migration_dirs(path@, opt_view(home)) == Some((d@, t@)),
            None => migration_dirs(path@, opt_view(home)) is None,
        },
{
    match expanded_path(path, home) {
        Some(d) => {
            let t = join_path(d.as_str(), "easytodo");
            Some((d, t))
        },
        None => None,
    }
}

/// What `Path::strip_prefix` leaves of `path` after the leading components `base`.
pub uninterp spec fn path_strip(path: Seq<char>, base: Seq<char>) -> Option<Seq<char>>;

/// Calls `std::path::Path::strip_prefix`: the rest of `path` after `base` when `base` is
/// made of its leading components, else `None`. The rest is named by `path_strip`.
#[verifier::external_body]
fn strip_path_prefix(path: &str, base: &str) -> (r: Option<String>)
    ensures
        opt_view(r) == path_strip(path@, base@),
{
    match std::path::Path::new(path).strip_prefix(base) {
        Ok(rest) => Some(rest.to_string_lossy().into_owned()),
        Err(_) => None,
    }
}

/// The data directory setting written once the tasks have moved to `target`: `~/` and
/// the part of the typed directory `dir` below the home directory, when it lies there,
/// else `target` in full.
pub open spec fn migrated_setting_spec(dir: Seq<char>, target: Seq<char>, home: Option<Seq<char>>) -> Seq<char> {
    match home {
        Some(h) => match path_strip(dir, h) {
            Some(rest) => "~/"@ + rest,
            None => target,
        },
        None => target,
    }
}

/// The data directory setting written once the tasks have moved.
pub fn migrated_setting(dir: &str, target: &str, home: Option<String>) -> (r: String)
    ensures
        r@ == migrated_setting_spec(dir@, target@, opt_view(home)),
{
    match home {
        Some(h) => match strip_path_prefix(dir, h.as_str()) {
            Some(rest) => {
                let mut r = owned("~/");
                append_str(&mut r, rest.as_str());
                r
            },
            None => owned(target),
        },
        None => owned(target),
    }
}

} // verus!
