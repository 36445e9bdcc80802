//! Where the shim keeps its files.

use crate::text::{chars_of, join, joined, opt_text, push_range, texts};
use vstd::prelude::*;

verus! {

/// How the platform writes paths.
#[derive(Clone, Copy, Debug, PartialEq, Eq, Structural)]
pub enum PathStyle {
    /// `\` or `/` between names, drive letters
    Windows,
    /// `/` between names
    Unix,
}

pub open spec fn is_separator(style: PathStyle, c: char) -> bool {
    c == '/' || (style == PathStyle::Windows && c == '\\')
}

/// Whether a path is a drive alone, such as `C:`.
pub open spec fn is_drive(style: PathStyle, path: Seq<char>) -> bool {
    style == PathStyle::Windows && path.len() == 2 && path[1] == ':' && ('a' <= path[0] <= 'z'
        || 'A' <= path[0] <= 'Z')
}

/// Whether a path is verbatim: it begins with `\\?\`, and only `\` separates
/// the names in it.
pub open spec fn is_verbatim(style: PathStyle, path: Seq<char>) -> bool {
    style == PathStyle::Windows && path.len() >= 4 && path[0] == '\\' && path[1] == '\\' && path[2]
        == '?' && path[3] == '\\'
}

/// The first place from `i` on that holds a backslash, or the length.
pub open spec fn backslash_from(path: Seq<char>, i: int) -> int
    decreases path.len() - i,
{
    if i >= path.len() {
        path.len() as int
    } else if path[i] == '\\' {
        i
    } else {
        backslash_from(path, i + 1)
    }
}

/// Whether a verbatim path begins with a server: `\\?\UNC\`.
pub open spec fn names_server(path: Seq<char>) -> bool {
    path.len() >= 8 && path[4] == 'U' && path[5] == 'N' && path[6] == 'C' && is_separator(
        PathStyle::Windows,
        path[7],
    )
}

/// Whether a verbatim path begins with a drive, such as `\\?\C:`.
pub open spec fn names_drive(path: Seq<char>) -> bool {
    path.len() >= 6 && is_drive(PathStyle::Windows, path.subrange(4, 6)) && (path.len() == 6
        || is_separator(PathStyle::Windows, path[6]))
}

/// The length of the prefix of a verbatim path: a server and its share, a
/// drive, or else the first name.
pub open spec fn prefix_len(path: Seq<char>) -> int {
    if names_server(path) {
        let server_end = backslash_from(path, 8);
        let share_end = backslash_from(path, server_end + 1);
        if share_end > server_end + 1 {
            share_end
        } else {
            server_end
        }
    } else if names_drive(path) {
        6
    } else {
        backslash_from(path, 4)
    }
}

/// The names between the backslashes of a text, empty ones left out.
pub open spec fn names_in(s: Seq<char>) -> Seq<Seq<char>>
    decreases s.len(),
{
    if s.len() == 0 {
        Seq::empty()
    } else {
        let n = backslash_from(s, 0);
        let rest = if 0 <= n < s.len() {
            names_in(s.skip(n + 1))
        } else {
            Seq::empty()
        };
        if n == 0 {
            rest
        } else {
            seq![s.take(n)] + rest
        }
    }
}

/// A file name in a verbatim directory: the prefix, then the names and the file
/// name, with one backslash before each.
pub open spec fn in_verbatim(dir: Seq<char>, name: Seq<char>) -> Seq<char> {
    let n = prefix_len(dir);
    let names = if n < dir.len() {
        names_in(dir.skip(n + 1))
    } else {
        Seq::empty()
    };
    dir.take(n) + seq!['\\'] + joined(names.push(name), seq!['\\'])
}

/// A plain file name in a directory. A separator comes between the two unless
/// the directory is empty, is a drive alone, or ends in a separator. A verbatim
/// directory loses superfluous separators.
pub open spec fn in_dir(style: PathStyle, dir: Seq<char>, name: Seq<char>) -> Seq<char> {
    if is_verbatim(style, dir) {
        in_verbatim(dir, name)
    } else if dir.len() == 0 || is_drive(style, dir) || is_separator(style, dir.last()) {
        dir + name
    } else if style == PathStyle::Windows {
        dir + seq!['\\'] + name
    } else {
        dir + seq!['/'] + name
    }
}

/// The directory for the shim's files, below the local application data.
pub open spec fn state_dir_text(style: PathStyle, local_app_data: Option<Seq<char>>) -> Seq<char> {
    let base = match local_app_data {
        Some(dir) => dir,
        None => "C:\\Users\\Default\\AppData\\Local"@,
    };
    in_dir(style, base, "wezterm-tmux-shim"@)
}

fn letter(c: char) -> (r: bool)
    ensures
        r == ('a' <= c <= 'z' || 'A' <= c <= 'Z'),
{
    ('a' <= c && c <= 'z') || ('A' <= c && c <= 'Z')
}

fn find_backslash(path: &Vec<char>, from: usize) -> (n: usize)
    ensures
        n == backslash_from(path@, from as int),
        n <= path@.len(),
        from <= path@.len() ==> from <= n,
{
    let mut i: usize = from;
    while i < path.len()
        invariant
            from <= i,
            i <= path@.len() || i == from,
            backslash_from(path@, from as int) == backslash_from(path@, i as int),
        decreases path@.len() - i,
    {
        if path[i] == '\\' {
            return i;
        }
        i += 1;
    }
    path.len()
}

fn find_prefix_len(path: &Vec<char>) -> (n: usize)
    requires
        path@.len() >= 4,
    ensures
        n == prefix_len(path@),
        4 <= n <= path@.len(),
{
    let len: usize = path.len();
    if len >= 8 && path[4] == 'U' && path[5] == 'N' && path[6] == 'C' && (path[7] == '/' || path[7]
        == '\\') {
        let server_end: usize = find_backslash(path, 8);
        if server_end == len {
            return server_end;
        }
        let share_end: usize = find_backslash(path, server_end + 1);
        return if share_end > server_end + 1 {
            share_end
        } else {
            server_end
        };
    }
    proof {
        if len >= 6 {
            assert(path@.subrange(4, 6)[0] == path@[4] && path@.subrange(4, 6)[1] == path@[5]);
        }
    }
    if len >= 6 && letter(path[4]) && path[5] == ':' && (len == 6 || path[6] == '/' || path[6]
        == '\\') {
        return 6;
    }
    find_backslash(path, 4)
}

/// `backslash_from` looks at nothing before its start.
proof fn lemma_backslash_shifted(path: Seq<char>, from: int, i: int)
    requires
        0 <= from <= i <= path.len(),
    ensures
        backslash_from(path.skip(from), i - from) == backslash_from(path, i) - from,
    decreases path.len() - i,
{
    if i < path.len() {
        assert(path.skip(from)[i - from] == path[i]);
        lemma_backslash_shifted(path, from, i + 1);
    }
}

/// The names between backslashes, from a place on.
fn find_names(path: &Vec<char>, from: usize) -> (r: Vec<String>)
    requires
        from <= path@.len(),
    ensures
        texts(r@) == names_in(path@.skip(from as int)),
{
    let mut names: Vec<String> = Vec::new();
    let mut i: usize = from;
    let ghost all = names_in(path@.skip(from as int));
    assert(texts(names@) =~= Seq::<Seq<char>>::empty());
    assert(texts(names@) + names_in(path@.skip(i as int)) =~= all);
    while i < path.len()
        invariant
            from <= i <= path@.len(),
            texts(names@) + names_in(path@.skip(i as int)) == all,
        decreases path@.len() - i,
    {
        let n: usize = find_backslash(path, i);
        let ghost rest = path@.skip(i as int);
        let ghost before = texts(names@);
        let next: usize = if n < path.len() {
            n + 1
        } else {
            n
        };
        proof {
            lemma_backslash_shifted(path@, i as int, i as int);
            if n < path@.len() {
                assert(rest.skip(n - i + 1) =~= path@.skip(next as int));
            } else {
                assert(path@.skip(next as int) =~= Seq::<char>::empty());
            }
        }
        if n > i {
            let mut name: String = String::new();
            push_range(&mut name, path, i, n);
            assert(name@ =~= rest.take(n - i));
            names.push(name);
            proof {
                assert(texts(names@) =~= before.push(name@));
                assert(names_in(rest) =~= seq![name@] + names_in(path@.skip(next as int)));
            }
        }
        i = next;
        assert(texts(names@) + names_in(path@.skip(i as int)) =~= before + names_in(rest));
    }
    assert(path@.skip(i as int).len() == 0);
    assert(texts(names@) + names_in(path@.skip(i as int)) =~= texts(names@));
    names
}

fn join_verbatim(dir: &str, name: &str) -> (r: String)
    requires
        dir@.len() >= 4,
    ensures
        r@ == in_verbatim(dir@, name@),
{
    let chars = chars_of(dir);
    let n: usize = find_prefix_len(&chars);
    let from: usize = if n < chars.len() {
        n + 1
    } else {
        n
    };
    let mut names = find_names(&chars, from);
    let ghost before = texts(names@);
    names.push(name.to_owned());
    proof {
        reveal_strlit("\\");
        assert("\\"@ =~= seq!['\\']);
        assert(texts(names@) =~= before.push(name@));
        if n == dir@.len() {
            assert(dir@.skip(n as int).len() == 0);
        }
    }
    let mut path: String = String::new();
    push_range(&mut path, &chars, 0, n);
    path.push('\\');
    path.append(join(names.as_slice(), "\\").as_str());
    assert(path@ =~= in_verbatim(dir@, name@));
    path
}

/// The path of a file in a directory.
pub fn join_path(style: PathStyle, dir: &str, name: &str) -> (r: String)
    ensures
        r@ == in_dir(style, dir@, name@),
{
    let windows = match style {
        PathStyle::Windows => true,
        PathStyle::Unix => false,
    };
    let n: usize = dir.unicode_len();
    if windows && n >= 4 && dir.get_char(0) == '\\' && dir.get_char(1) == '\\' && dir.get_char(2)
        == '?' && dir.get_char(3) == '\\' {
        return join_verbatim(dir, name);
    }
    let mut path: String = dir.to_owned();
    if n > 0 {
        let last = dir.get_char(n - 1);
        let drive = windows && n == 2 && last == ':' && letter(dir.get_char(0));
        if !drive && last != '/' && !(windows && last == '\\') {
            if windows {
                path.push('\\');
            } else {
                path.push('/');
            }
        }
    }
    path.append(name);
    assert(path@ =~= in_dir(style, dir@, name@));
    path
}

/// The directory for the shim's files. `local_app_data` is the value of
/// `LOCALAPPDATA`, where it is set.
pub fn state_dir(style: PathStyle, local_app_data: Option<String>) -> (r: String)
    ensures
        r@ == state_dir_text(style, opt_text(local_app_data)),
{
    let base: String = match local_app_data {
        Some(dir) => dir,
        None => "C:\\Users\\Default\\AppData\\Local".to_owned(),
    };
    join_path(style, base.as_str(), "wezterm-tmux-shim")
}

/// The file that holds the remembered state.
pub fn state_path(style: PathStyle, dir: &str) -> (r: String)
    ensures
        r@ == in_dir(style, dir@, "state.json"@),
{
    join_path(style, dir, "state.json")
}

/// The file that is locked while the state is in use.
pub fn lock_path(style: PathStyle, dir: &str) -> (r: String)
    ensures
        r@ == in_dir(style, dir@, "state.lock"@),
{
    join_path(style, dir, "state.lock")
}

/// The file that a new state is written to before it replaces the old one.
pub fn temp_path(style: PathStyle, dir: &str) -> (r: String)
    ensures
        r@ == in_dir(style, dir@, "state.json.tmp"@),
{
    join_path(style, dir, "state.json.tmp")
}

/// The log file.
pub fn log_path(style: PathStyle, dir: &str) -> (r: String)
    ensures
        r@ == in_dir(style, dir@, "shim.log"@),
{
    join_path(style, dir, "shim.log")
}

} // verus!
