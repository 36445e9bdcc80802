//! Where files and programs are, what command lines ask for, and what the log
//! says.

use crate::invocation::{invocation_of, Invocation};
use crate::log::{bool_text, code_text, command_name, notice_text};
use crate::paths::{
    backslash_from, in_dir, names_in, prefix_len, state_dir_text, PathStyle,
};
use crate::programs::{bash_places, first_file, wezterm_program};
use crate::text::{decimal, joined};
use crate::turn::{Notice, Subcommand};
use vstd::prelude::*;

verus! {

// ----------------------------------------------------------------------- paths

/// On Unix a slash comes between a directory and a file in it, unless one is
/// there or the directory is empty.
pub proof fn law_unix_paths(dir: Seq<char>, name: Seq<char>)
    ensures
        in_dir(PathStyle::Unix, dir, name) == (if dir.len() == 0 || dir.last() == '/' {
            dir + name
        } else {
            dir + "/"@ + name
        }),
{
    reveal_strlit("/");
    assert("/"@ =~= seq!['/']);
}

/// On Windows a backslash comes between a directory and a file in it, unless the
/// directory ends in a separator, is a drive alone, or is empty. Verbatim paths
/// are another matter.
pub proof fn law_windows_paths(dir: Seq<char>, name: Seq<char>)
    requires
        !(dir.len() >= 4 && dir[0] == '\\' && dir[1] == '\\' && dir[2] == '?' && dir[3] == '\\'),
    ensures
        ({
            let drive = dir.len() == 2 && dir[1] == ':' && ('a' <= dir[0] <= 'z' || 'A' <= dir[0]
                <= 'Z');
            in_dir(PathStyle::Windows, dir, name) == if dir.len() == 0 || drive || dir.last()
                == '/' || dir.last() == '\\' {
                dir + name
            } else {
                dir + "\\"@ + name
            }
        }),
{
    reveal_strlit("\\");
    assert("\\"@ =~= seq!['\\']);
}

/// A file in a verbatim directory: the prefix of the directory, then the names
/// in it and that of the file, with one backslash before each.
pub proof fn law_verbatim_paths(dir: Seq<char>, name: Seq<char>)
    requires
        dir.len() >= 4 && dir[0] == '\\' && dir[1] == '\\' && dir[2] == '?' && dir[3] == '\\',
    ensures
        in_dir(PathStyle::Windows, dir, name) == dir.take(prefix_len(dir)) + "\\"@ + joined(
            (if prefix_len(dir) < dir.len() {
                names_in(dir.skip(prefix_len(dir) + 1))
            } else {
                Seq::empty()
            }).push(name),
            "\\"@,
        ),
{
    reveal_strlit("\\");
    assert("\\"@ =~= seq!['\\']);
}

/// Whether a text has no backslash.
pub open spec fn no_backslash(s: Seq<char>) -> bool {
    forall|i: int| 0 <= i < s.len() ==> #[trigger] s[i] != '\\'
}

proof fn lemma_next_backslash(before: Seq<char>, after: Seq<char>, i: int)
    requires
        0 <= i <= before.len(),
        forall|k: int| i <= k < before.len() ==> #[trigger] before[k] != '\\',
        after.len() == 0 || after[0] == '\\',
    ensures
        backslash_from(before + after, i) == before.len(),
    decreases before.len() - i,
{
    let s = before + after;
    if i < before.len() {
        assert(s[i] == before[i]);
        lemma_next_backslash(before, after, i + 1);
    } else if after.len() > 0 {
        assert(s[i] == after[0]);
    }
}

/// The names in a path are the texts between its backslashes, but for empty
/// ones.
pub proof fn law_names_in_paths(first: Seq<char>, rest: Seq<char>)
    requires
        no_backslash(first),
    ensures
        names_in(Seq::empty()) == Seq::<Seq<char>>::empty(),
        first.len() > 0 ==> names_in(first) == seq![first],
        first.len() > 0 ==> names_in(first + "\\"@ + rest) == seq![first] + names_in(rest),
        names_in("\\"@ + rest) == names_in(rest),
{
    reveal_strlit("\\");
    assert("\\"@ =~= seq!['\\']);
    let sep = seq!['\\'];
    lemma_next_backslash(first, Seq::empty(), 0);
    assert(first + Seq::<char>::empty() =~= first);
    assert(first.take(first.len() as int) =~= first);
    if first.len() > 0 {
        assert(names_in(first) =~= seq![first]);
    }
    let s = first + sep + rest;
    assert(s =~= first + (sep + rest));
    lemma_next_backslash(first, sep + rest, 0);
    assert(s.skip(first.len() as int + 1) =~= rest);
    assert(s.take(first.len() as int) =~= first);
    lemma_next_backslash(Seq::empty(), sep + rest, 0);
    assert(Seq::<char>::empty() + (sep + rest) =~= sep + rest);
    assert((sep + rest).skip(1) =~= rest);
}

/// The prefix of a verbatim path is a drive where one is named, a server with
/// its share where one is named, and the first name otherwise.
pub proof fn law_verbatim_prefixes(
    letter: char,
    server: Seq<char>,
    share: Seq<char>,
    name: Seq<char>,
    rest: Seq<char>,
)
    requires
        'a' <= letter <= 'z' || 'A' <= letter <= 'Z',
        no_backslash(server) && no_backslash(share) && no_backslash(name),
        share.len() > 0,
        rest.len() == 0 || rest[0] == '\\',
        name.len() < 2 || name[1] != ':',
        !(name == "UNC"@ && rest.len() > 0),
        name.len() < 4 || name.take(3) != "UNC"@ || name[3] != '/',
    ensures
        prefix_len("\\\\?\\"@ + seq![letter, ':'] + rest) == 6,
        prefix_len("\\\\?\\UNC\\"@ + server + "\\"@ + share + rest) == 9 + server.len()
            + share.len(),
        prefix_len("\\\\?\\"@ + name + rest) == 4 + name.len(),
{
    reveal_strlit("\\\\?\\");
    reveal_strlit("\\\\?\\UNC\\");
    reveal_strlit("\\");
    reveal_strlit("UNC");
    let lead = "\\\\?\\"@;
    assert(lead.len() == 4);
    // a drive
    let drive = lead + seq![letter, ':'] + rest;
    assert(drive[4] == letter && drive[5] == ':');
    assert(drive.subrange(4, 6)[0] == letter && drive.subrange(4, 6)[1] == ':');
    if rest.len() > 0 {
        assert(drive[6] == rest[0]);
    }
    // a server
    let unc = "\\\\?\\UNC\\"@;
    assert(unc.len() == 8 && unc[4] == 'U' && unc[5] == 'N' && unc[6] == 'C' && unc[7] == '\\');
    let path = unc + server + "\\"@ + share + rest;
    assert(path[4] == 'U' && path[5] == 'N' && path[6] == 'C' && path[7] == '\\');
    let to_server = unc + server;
    assert(path =~= to_server + ("\\"@ + share + rest));
    assert forall|k: int| 8 <= k < to_server.len() implies #[trigger] to_server[k] != '\\' by {
        assert(to_server[k] == server[k - 8]);
    }
    lemma_next_backslash(to_server, "\\"@ + share + rest, 8);
    let to_share = to_server + "\\"@ + share;
    let after_server = to_server.len() as int + 1;
    assert(path =~= to_share + rest);
    assert forall|k: int| after_server <= k < to_share.len() implies #[trigger] to_share[k]
        != '\\' by {
        assert(to_share[k] == share[k - after_server]);
    }
    lemma_next_backslash(to_share, rest, after_server);
    // a name
    let to_name = lead + name;
    let plain = to_name + rest;
    assert(lead + name + rest =~= plain);
    assert forall|k: int| 4 <= k < to_name.len() implies #[trigger] to_name[k] != '\\' by {
        assert(to_name[k] == name[k - 4]);
    }
    lemma_next_backslash(to_name, rest, 4);
    if plain.len() >= 8 && plain[4] == 'U' && plain[5] == 'N' && plain[6] == 'C' && (plain[7] == '/'
        || plain[7] == '\\') {
        assert forall|k: int| 0 <= k < name.len() implies plain[k + 4] == #[trigger] name[k] by {}
        if name.len() >= 4 {
            assert(plain[7] == name[3] && plain[6] == name[2] && plain[5] == name[1] && plain[4]
                == name[0]);
            assert(name.take(3) =~= "UNC"@);
        } else if name.len() == 3 {
            assert(plain[6] == name[2] && plain[5] == name[1] && plain[4] == name[0]);
            assert(name =~= "UNC"@);
        } else {
            assert(plain[4 + name.len() as int] == rest[0]);
        }
    }
    if plain.len() >= 6 {
        assert(plain.subrange(4, 6)[1] == plain[5]);
        if name.len() >= 2 {
            assert(plain[5] == name[1]);
        } else if name.len() == 1 {
            assert(plain[5] == rest[0]);
        } else {
            assert(plain.subrange(4, 6)[0] == plain[4]);
            assert(plain[4] == rest[0]);
        }
    }
}

/// A server without a share is a prefix by itself. Both separators may stand
/// after a drive, and the server may be set off by either.
pub proof fn law_other_verbatim_prefixes(
    letter: char,
    server: Seq<char>,
    share: Seq<char>,
    rest: Seq<char>,
)
    requires
        'a' <= letter <= 'z' || 'A' <= letter <= 'Z',
        no_backslash(server) && no_backslash(share),
        share.len() > 0,
        rest.len() == 0 || rest[0] == '\\',
    ensures
        prefix_len("\\\\?\\UNC\\"@ + server) == 8 + server.len(),
        prefix_len("\\\\?\\UNC\\"@ + server + "\\"@ + rest) == 8 + server.len(),
        prefix_len("\\\\?\\UNC/"@ + server + "\\"@ + share + rest) == 9 + server.len()
            + share.len(),
        prefix_len("\\\\?\\"@ + seq![letter, ':', '/'] + rest) == 6,
{
    reveal_strlit("\\\\?\\");
    reveal_strlit("\\\\?\\UNC\\");
    reveal_strlit("\\\\?\\UNC/");
    reveal_strlit("\\");
    assert("\\"@ =~= seq!['\\']);
    let unc = "\\\\?\\UNC\\"@;
    let slash = "\\\\?\\UNC/"@;
    let sep = "\\"@;
    // a server alone
    let alone = unc + server;
    assert(unc[4] == 'U' && unc[5] == 'N' && unc[6] == 'C' && unc[7] == '\\');
    assert(alone[4] == 'U' && alone[5] == 'N' && alone[6] == 'C' && alone[7] == '\\');
    assert forall|k: int| 8 <= k < alone.len() implies #[trigger] alone[k] != '\\' by {
        assert(alone[k] == server[k - 8]);
    }
    lemma_next_backslash(alone, Seq::empty(), 8);
    assert(alone + Seq::<char>::empty() =~= alone);
    // a server with an empty share
    let bare = alone + sep + rest;
    assert(bare[4] == 'U' && bare[5] == 'N' && bare[6] == 'C' && bare[7] == '\\');
    assert(bare =~= alone + (sep + rest));
    lemma_next_backslash(alone, sep + rest, 8);
    lemma_next_backslash(alone + sep, rest, alone.len() as int + 1);
    // a slash before the server
    let to_server = slash + server;
    let path = to_server + sep + share + rest;
    assert(slash[4] == 'U' && slash[5] == 'N' && slash[6] == 'C' && slash[7] == '/');
    assert(path[4] == 'U' && path[5] == 'N' && path[6] == 'C' && path[7] == '/');
    assert(path =~= to_server + (sep + share + rest));
    assert forall|k: int| 8 <= k < to_server.len() implies #[trigger] to_server[k] != '\\' by {
        assert(to_server[k] == server[k - 8]);
    }
    lemma_next_backslash(to_server, sep + share + rest, 8);
    let to_share = to_server + sep + share;
    let after_server = to_server.len() as int + 1;
    assert forall|k: int| after_server <= k < to_share.len() implies #[trigger] to_share[k]
        != '\\' by {
        assert(to_share[k] == share[k - after_server]);
    }
    lemma_next_backslash(to_share, rest, after_server);
    // a slash after a drive
    let drive = "\\\\?\\"@ + seq![letter, ':', '/'] + rest;
    assert(drive[4] == letter && drive[5] == ':' && drive[6] == '/');
    assert(drive.subrange(4, 6)[0] == letter && drive.subrange(4, 6)[1] == ':');
}

/// The shim's directory is `wezterm-tmux-shim`, below the local application data.
pub proof fn law_shim_directory(style: PathStyle, dir: Seq<char>)
    ensures
        state_dir_text(style, Some(dir)) == in_dir(style, dir, "wezterm-tmux-shim"@),
        state_dir_text(style, None) == in_dir(
            style,
            "C:\\Users\\Default\\AppData\\Local"@,
            "wezterm-tmux-shim"@,
        ),
{
}

// -------------------------------------------------------------------- programs

/// WezTerm is called by its name where that works, and otherwise by its place
/// below the program directory.
pub proof fn law_wezterm_program(dir: Seq<char>, program_files: Option<Seq<char>>)
    ensures
        wezterm_program(true, program_files) == "wezterm"@,
        wezterm_program(false, Some(dir)) == dir + "\\WezTerm\\wezterm.exe"@,
        wezterm_program(false, None) == "C:\\Program Files"@ + "\\WezTerm\\wezterm.exe"@,
{
}

/// Bash is looked for where `SHELL` says, if it says anything, and then in the
/// two places of Git for Windows.
pub proof fn law_bash_places(shell: Seq<char>)
    ensures
        bash_places(None) == seq![
            "C:\\Program Files\\Git\\bin\\bash.exe"@,
            "C:\\Program Files\\Git\\usr\\bin\\bash.exe"@,
        ],
        bash_places(Some(shell)) == (if shell.len() == 0 {
            bash_places(None)
        } else {
            seq![shell] + bash_places(None)
        }),
{
}

/// The first place that is a file is taken.
pub proof fn law_first_file(places: Seq<Seq<char>>, is_file: Seq<bool>)
    requires
        places.len() == is_file.len(),
    ensures
        match first_file(places, is_file) {
            Some(p) => exists|i: int|
                0 <= i < places.len() && #[trigger] is_file[i] && places[i] == p && forall|j: int|
                    0 <= j < i ==> !#[trigger] is_file[j],
            None => forall|i: int| 0 <= i < places.len() ==> !#[trigger] is_file[i],
        },
    decreases places.len(),
{
    if places.len() > 0 {
        if is_file[0] {
            assert(is_file[0] && places[0] == first_file(places, is_file)->0);
        } else {
            let rest = is_file.skip(1);
            let others = places.skip(1);
            law_first_file(others, rest);
            match first_file(others, rest) {
                Some(p) => {
                    let i = choose|i: int|
                        0 <= i < others.len() && #[trigger] rest[i] && others[i] == p && forall|
                            j: int,
                        |
                            0 <= j < i ==> !#[trigger] rest[j];
                    assert(is_file[i + 1] && places[i + 1] == p);
                    assert forall|j: int| 0 <= j < i + 1 implies !#[trigger] is_file[j] by {
                        if j > 0 {
                            assert(!rest[j - 1]);
                        }
                    }
                },
                None => {
                    assert forall|i: int| 0 <= i < places.len() implies !#[trigger] is_file[i] by {
                        if i > 0 {
                            assert(!rest[i - 1]);
                        }
                    }
                },
            }
        }
    }
}

// ---------------------------------------------------------------- command lines

/// `--version` or `-V` right after the program asks for the version. A word that
/// is no global option is the subcommand, and all words after it are its
/// arguments. Without words there is nothing to do.
pub proof fn law_command_lines(program: Seq<char>, word: Seq<char>, rest: Seq<Seq<char>>)
    ensures
        invocation_of(Seq::empty()) is Nothing,
        invocation_of(seq![program]) is Nothing,
        word == "--version"@ || word == "-V"@ ==> invocation_of(seq![program, word] + rest)
            is Version,
        word != "--version"@ && word != "-V"@ && word != "-S"@ && word != "-L"@ && word != "-f"@
            && word != "-c"@ && word != "-T"@ && word != "-2"@ && word != "-C"@ && word != "-CC"@
            && word != "-D"@ && word != "-l"@ && word != "-q"@ && word != "-u"@ && word != "-v"@
            ==> invocation_of(seq![program, word] + rest) == (Invocation::Run {
            subcommand: word,
            args: rest,
        }),
{
    let words = seq![program, word] + rest;
    assert(words[1] == word);
    assert(words.skip(2) =~= rest);
}

/// A global option without a value does not change what the rest of the command
/// line asks for.
pub proof fn law_global_flags_are_skipped(
    program: Seq<char>,
    option: Seq<char>,
    rest: Seq<Seq<char>>,
)
    requires
        option == "-2"@ || option == "-C"@ || option == "-CC"@ || option == "-D"@ || option == "-l"@
            || option == "-q"@ || option == "-u"@ || option == "-v"@,
        rest.len() > 0 ==> rest[0] != "--version"@ && rest[0] != "-V"@,
    ensures
        invocation_of(seq![program, option] + rest) == invocation_of(seq![program] + rest),
{
    crate::laws::words::lemma_flag_skipped(program, option, rest);
}

/// A global option with a value and one without do not differ in what they mean
/// for the words after them. Without a word after it, an option leaves nothing
/// to do.
pub proof fn law_global_options_are_alike(
    program: Seq<char>,
    option: Seq<char>,
    value: Seq<char>,
    rest: Seq<Seq<char>>,
)
    requires
        option == "-S"@ || option == "-L"@ || option == "-f"@ || option == "-c"@ || option == "-T"@,
    ensures
        invocation_of(seq![program, option, value] + rest) == invocation_of(
            seq![program, "-2"@] + rest,
        ),
        invocation_of(seq![program, option]) is Nothing,
{
    crate::laws::words::lemma_valued_like_flag(program, option, value, rest);
}

/// `--version` is a subcommand, and `-V` a global option, once another global
/// option has come before it.
pub proof fn law_version_comes_first(
    program: Seq<char>,
    option: Seq<char>,
    rest: Seq<Seq<char>>,
)
    requires
        option == "-2"@ || option == "-C"@ || option == "-CC"@ || option == "-D"@ || option == "-l"@
            || option == "-q"@ || option == "-u"@ || option == "-v"@,
    ensures
        invocation_of(seq![program, option, "--version"@] + rest) == (Invocation::Run {
            subcommand: "--version"@,
            args: rest,
        }),
        invocation_of(seq![program, option, "-V"@] + rest) == invocation_of(
            seq![program, option] + rest,
        ),
{
    crate::laws::words::lemma_version_later(program, option, rest);
}

// --------------------------------------------------------------------- the log

/// Exit codes are shown in decimal, with a minus sign where they are negative.
pub proof fn law_codes_in_the_log(code: i32)
    ensures
        code >= 0 ==> code_text(code) == decimal(code as nat),
        code < 0 ==> code_text(code) == "-"@ + decimal((-code) as nat),
        bool_text(true) == "true"@,
        bool_text(false) == "false"@,
{
    reveal_strlit("-");
    assert("-"@ =~= seq!['-']);
}

/// The commands that can fail to find their target go by their own names in the
/// log.
pub proof fn law_names_in_the_log()
    ensures
        command_name(Subcommand::SetOption) == "set-option"@,
        command_name(Subcommand::RespawnPane) == "respawn-pane"@,
        command_name(Subcommand::SendKeys) == "send-keys"@,
        command_name(Subcommand::CapturePane) == "capture-pane"@,
        command_name(Subcommand::KillPane) == "kill-pane"@,
        command_name(Subcommand::KillWindow) == "kill-window"@,
{
}

/// What the log says of panes, targets and calls.
pub proof fn law_lines_of_the_log(
    command: Subcommand,
    target: Seq<char>,
    pane: u64,
    exit: i32,
    literal: bool,
    text: Seq<char>,
    quoted: Seq<char>,
    quoted_args: Seq<char>,
)
    ensures
        ({
            let id = decimal(pane as nat);
            let code = code_text(exit);
            let line = |n: Notice<Seq<char>, Seq<Seq<char>>>| notice_text(n, quoted, quoted_args);
            &&& line(Notice::Unresolved { command, target }) == "  "@ + command_name(command)
                + ": could not resolve target="@ + target
            &&& line(Notice::SplitFailed { exit }) == "  split-pane failed (exit="@ + code
                + "); falling back to synthetic pane id"@
            &&& line(Notice::SyntheticId)
                == "  could not parse split-pane stdout; allocating synthetic id"@
            &&& line(Notice::SetTitle { target, title: text })
                == "  select-pane: set-tab-title target="@ + target + " title="@ + text
            &&& line(Notice::Policy { target, pane, value: text })
                == "  set-option: remain-on-exit target="@ + target + " wez_target="@ + id
                + " value="@ + text
            &&& line(Notice::NothingToRun) == "  respawn-pane: no cmd after --; nothing to do"@
            &&& line(Notice::UsingBash { bash: text }) == "  respawn-pane: using bash="@ + text
            &&& line(Notice::NoBash)
                == "  respawn-pane: no bash.exe found (Git for Windows required); launcher will fail"@
            &&& line(Notice::Typing { target, pane, literal, text }) == "  send-keys: target="@
                + target + " wez_target="@ + id + " literal="@ + bool_text(literal) + " text="@
                + quoted
            &&& line(Notice::NotPrinted)
                == "  capture-pane: -p not set; nothing to output (no tmux paste-buffer equivalent)"@
            &&& line(Notice::SetVariable { name: target, value: text }) == "  set-environment: "@
                + target + "="@ + text
            &&& line(Notice::KillPane { target, pane }) == "  kill-pane: target="@ + target
                + " wez_target="@ + id
            &&& line(Notice::KillPaneExit { exit }) == "  kill-pane: wezterm exit="@ + code
            &&& line(Notice::KillWindow { window: pane }) == "  kill-window: window_id="@ + id
            &&& line(Notice::KilledInWindow { pane, exit }) == "  kill-window: killed pane_id="@
                + id + " exit="@ + code
        }),
{
}

} // verus!
