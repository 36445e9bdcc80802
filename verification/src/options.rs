//! The options of each subcommand.

use crate::args::{
    after_dashes, before_dashes, command_part, dashed, has_flag, has_flag_last, is_dashed, is_given,
    is_given_last, operands, option_text, option_value, options_part, plain_words, value_for,
    value_or_empty, words_except, words_of,
};
use crate::text::{opt_text, same, texts};
use vstd::prelude::*;

verus! {

/// Options of `new-session` and `new-window`.
pub struct NewOpts<S> {
    /// `-P`: show the new pane
    pub print: bool,
    /// `-F`: how to show it
    pub format: S,
}

pub open spec fn new_opts(words: Seq<Seq<char>>) -> NewOpts<Seq<char>> {
    let valued = seq!["-F"@];
    let head = before_dashes(words, valued);
    NewOpts { print: is_given(head, valued, "-P"@), format: value_or_empty(head, valued, "-F"@) }
}

/// Reads the options of `new-session` and `new-window`.
pub fn parse_new_args(args: &[String]) -> (r: NewOpts<String>)
    ensures
        r.print == new_opts(texts(args@)).print,
        r.format@ == new_opts(texts(args@)).format,
{
    let valued = vec!["-F"];
    assert(words_of(valued@) =~= seq!["-F"@]);
    let head = options_part(args, &valued);
    NewOpts { print: has_flag(head, &valued, "-P"), format: option_text(head, &valued, "-F") }
}

/// Options of `split-window`.
pub struct SplitOpts<S> {
    /// `-t`: the pane to split
    pub target: S,
    /// `-h` rather than `-v`: side by side
    pub horizontal: bool,
    /// `-P`: show the new pane
    pub print: bool,
    /// `-F`: how to show it
    pub format: S,
}

pub open spec fn split_opts(words: Seq<Seq<char>>) -> SplitOpts<Seq<char>> {
    let valued = seq!["-t"@, "-F"@];
    let head = before_dashes(words, valued);
    SplitOpts {
        target: value_or_empty(head, valued, "-t"@),
        horizontal: is_given_last(head, valued, "-h"@, "-v"@),
        print: is_given(head, valued, "-P"@),
        format: value_or_empty(head, valued, "-F"@),
    }
}

/// Reads the options of `split-window`.
pub fn parse_split_args(args: &[String]) -> (r: SplitOpts<String>)
    ensures
        r.target@ == split_opts(texts(args@)).target,
        r.horizontal == split_opts(texts(args@)).horizontal,
        r.print == split_opts(texts(args@)).print,
        r.format@ == split_opts(texts(args@)).format,
{
    let valued = vec!["-t", "-F"];
    assert(words_of(valued@) =~= seq!["-t"@, "-F"@]);
    let head = options_part(args, &valued);
    proof {
        reveal_strlit("-h");
        reveal_strlit("-v");
        assert("-h"@[1] != "-v"@[1]);
    }
    SplitOpts {
        target: option_text(head, &valued, "-t"),
        horizontal: has_flag_last(head, &valued, "-h", "-v"),
        print: has_flag(head, &valued, "-P"),
        format: option_text(head, &valued, "-F"),
    }
}

/// Options of `list-panes`.
pub struct ListOpts<S> {
    /// `-t`: a window id, or anything else for all windows
    pub target: S,
    /// `-F`: how to show a pane
    pub format: S,
}

pub open spec fn list_opts(words: Seq<Seq<char>>) -> ListOpts<Seq<char>> {
    let valued = seq!["-t"@, "-F"@];
    ListOpts {
        target: value_or_empty(words, valued, "-t"@),
        format: value_or_empty(words, valued, "-F"@),
    }
}

/// Reads the options of `list-panes`.
pub fn parse_list_args(args: &[String]) -> (r: ListOpts<String>)
    ensures
        r.target@ == list_opts(texts(args@)).target,
        r.format@ == list_opts(texts(args@)).format,
{
    let valued = vec!["-t", "-F"];
    assert(words_of(valued@) =~= seq!["-t"@, "-F"@]);
    ListOpts {
        target: option_text(args, &valued, "-t"),
        format: option_text(args, &valued, "-F"),
    }
}

/// The message format among the first `n` words of `display-message`: the word
/// right after a `-p`, or the first other word after one; words that begin with
/// a dash never count.
pub open spec fn message_format(words: Seq<Seq<char>>, n: int) -> Seq<char>
    decreases n,
{
    if n <= 0 {
        Seq::empty()
    } else {
        let word = words[n - 1];
        let before = message_format(words, n - 1);
        if is_dashed(word) {
            before
        } else if n >= 2 && words[n - 2] == "-p"@ {
            word
        } else if before.len() == 0 && words.take(n - 1).contains("-p"@) {
            word
        } else {
            before
        }
    }
}

/// Reads the message format of `display-message`. It is empty if there is none
/// or if printing (`-p`) is not asked for.
pub fn parse_message_args(args: &[String]) -> (r: String)
    ensures
        r@ == message_format(texts(args@), args@.len() as int),
{
    let ghost words = texts(args@);
    let mut print: bool = false;
    let mut after_p: bool = false;
    let mut format: String = String::new();
    for i in 0..args.len()
        invariant
            words == texts(args@),
            print == words.take(i as int).contains("-p"@),
            after_p == (i >= 1 && words[i - 1] == "-p"@),
            format@ == message_format(words, i as int),
    {
        let word = args[i].as_str();
        let ghost before = words.take(i as int);
        proof {
            let after = words.take(i + 1);
            assert(after =~= before.push(words[i as int]));
            if before.contains("-p"@) {
                let k = choose|k: int| 0 <= k < before.len() && before[k] == "-p"@;
                assert(after[k] == "-p"@);
            }
            if after.contains("-p"@) && words[i as int] != "-p"@ {
                let k = choose|k: int| 0 <= k < after.len() && after[k] == "-p"@;
                assert(before[k] == "-p"@);
            }
            assert(after[i as int] == words[i as int]);
        }
        if !dashed(word) && (after_p || (print && format.as_str().is_empty())) {
            format = args[i].clone();
        }
        after_p = same(word, "-p");
        print = print || after_p;
    }
    format
}

/// Options of `select-pane`.
pub struct SelectOpts<S> {
    /// `-t`: the pane
    pub target: S,
    /// `-T`: its title
    pub title: S,
}

pub open spec fn select_opts(words: Seq<Seq<char>>) -> SelectOpts<Seq<char>> {
    let valued = seq!["-t"@, "-T"@];
    SelectOpts {
        target: value_or_empty(words, valued, "-t"@),
        title: value_or_empty(words, valued, "-T"@),
    }
}

/// Reads the options of `select-pane`.
pub fn parse_select_args(args: &[String]) -> (r: SelectOpts<String>)
    ensures
        r.target@ == select_opts(texts(args@)).target,
        r.title@ == select_opts(texts(args@)).title,
{
    let valued = vec!["-t", "-T"];
    assert(words_of(valued@) =~= seq!["-t"@, "-T"@]);
    SelectOpts {
        target: option_text(args, &valued, "-t"),
        title: option_text(args, &valued, "-T"),
    }
}

/// The `-t` option of subcommands that have no other option with a value.
pub open spec fn target_opt(words: Seq<Seq<char>>) -> Seq<char> {
    value_or_empty(words, seq!["-t"@], "-t"@)
}

/// Reads the `-t` option of subcommands that have no other option with a value.
pub fn parse_target(args: &[String]) -> (r: String)
    ensures
        r@ == target_opt(texts(args@)),
{
    let valued = vec!["-t"];
    assert(words_of(valued@) =~= seq!["-t"@]);
    option_text(args, &valued, "-t")
}

/// The option name and the value that `set-option` is given.
pub open spec fn option_words(words: Seq<Seq<char>>) -> Seq<Seq<char>> {
    operands(words, seq!["-t"@], |w: Seq<char>| is_dashed(w))
}

/// Reads the option name and the value that `set-option` is given.
pub fn parse_option_words(args: &[String]) -> (r: Vec<String>)
    ensures
        texts(r@) == option_words(texts(args@)),
{
    let valued = vec!["-t"];
    assert(words_of(valued@) =~= seq!["-t"@]);
    plain_words(args, &valued)
}

/// The first place from `i` on whose word does not begin with a dash, or the
/// number of words.
pub open spec fn options_end(words: Seq<Seq<char>>, i: int) -> int
    decreases words.len() - i,
{
    if i >= words.len() {
        words.len() as int
    } else if is_dashed(words[i]) {
        options_end(words, i + 1)
    } else {
        i
    }
}

/// The name and the value that `set-environment` and `show-environment` are
/// given, as far as they are there. The name is the first word that does not
/// begin with a dash, and the value the next such word. Where no such word
/// follows the name, the word after it is the value, dash and all.
pub open spec fn env_words(words: Seq<Seq<char>>) -> Seq<Seq<char>> {
    let name = options_end(words, 0);
    let value = options_end(words, name + 1);
    if name >= words.len() {
        Seq::empty()
    } else if value < words.len() {
        seq![words[name], words[value]]
    } else if name + 1 < words.len() {
        seq![words[name], words[name + 1]]
    } else {
        seq![words[name]]
    }
}

/// Whether `-as` stands among the options: `set -as` is about a server option,
/// not about a variable.
pub open spec fn is_server_option(words: Seq<Seq<char>>) -> bool {
    words.take(options_end(words, 0)).contains("-as"@)
}

/// The first place from `from` on whose word does not begin with a dash, or the
/// number of words.
fn options_end_place(args: &[String], from: usize) -> (n: usize)
    requires
        from <= args@.len(),
    ensures
        n == options_end(texts(args@), from as int),
        from <= n <= args@.len(),
{
    let ghost words = texts(args@);
    for i in from..args.len()
        invariant
            from <= i <= args@.len(),
            words == texts(args@),
            options_end(words, from as int) == options_end(words, i as int),
    {
        if !dashed(args[i].as_str()) {
            return i;
        }
    }
    args.len()
}

/// Reads the name and the value that `set-environment` and `show-environment`
/// are given.
pub fn parse_env_words(args: &[String]) -> (r: Vec<String>)
    ensures
        texts(r@) == env_words(texts(args@)),
{
    let mut r: Vec<String> = Vec::new();
    let name: usize = options_end_place(args, 0);
    if name < args.len() {
        r.push(args[name].clone());
        let value: usize = options_end_place(args, name + 1);
        if value < args.len() {
            r.push(args[value].clone());
        } else if name + 1 < args.len() {
            r.push(args[name + 1].clone());
        }
    }
    assert(texts(r@) =~= env_words(texts(args@)));
    r
}

/// Whether `-as` stands among the options.
pub fn names_server_option(args: &[String]) -> (r: bool)
    ensures
        r == is_server_option(texts(args@)),
{
    let n: usize = options_end_place(args, 0);
    let ghost options = texts(args@).take(n as int);
    for i in 0..n
        invariant
            n <= args@.len(),
            n == options_end(texts(args@), 0),
            options == texts(args@).take(n as int),
            forall|j: int| 0 <= j < i ==> options[j] != "-as"@,
    {
        if same(args[i].as_str(), "-as") {
            assert(options[i as int] == "-as"@);
            return true;
        }
    }
    false
}

/// Options of `respawn-pane`.
pub struct RespawnOpts<S, L> {
    /// `-t`: the pane
    pub target: S,
    /// the words after `--`
    pub command: L,
}

pub open spec fn respawn_opts(words: Seq<Seq<char>>) -> RespawnOpts<Seq<char>, Seq<Seq<char>>> {
    let valued = seq!["-t"@];
    RespawnOpts {
        target: value_or_empty(before_dashes(words, valued), valued, "-t"@),
        command: after_dashes(words, valued),
    }
}

/// Reads the options of `respawn-pane`.
pub fn parse_respawn_args(args: &[String]) -> (r: RespawnOpts<String, Vec<String>>)
    ensures
        r.target@ == respawn_opts(texts(args@)).target,
        texts(r.command@) == respawn_opts(texts(args@)).command,
{
    let valued = vec!["-t"];
    assert(words_of(valued@) =~= seq!["-t"@]);
    RespawnOpts {
        target: option_text(options_part(args, &valued), &valued, "-t"),
        command: command_part(args, &valued),
    }
}

/// Options of `send-keys`.
pub struct KeysOpts<S, L> {
    /// `-t`: the pane
    pub target: S,
    /// `-l`: the tokens are plain text
    pub literal: bool,
    /// keys and texts
    pub tokens: L,
}

pub open spec fn keys_opts(words: Seq<Seq<char>>) -> KeysOpts<Seq<char>, Seq<Seq<char>>> {
    let valued = seq!["-t"@];
    KeysOpts {
        target: value_or_empty(words, valued, "-t"@),
        literal: is_given(words, valued, "-l"@),
        tokens: operands(words, valued, |w: Seq<char>| w == "-t"@ || w == "-l"@),
    }
}

/// Reads the options of `send-keys`.
pub fn parse_keys_args(args: &[String]) -> (r: KeysOpts<String, Vec<String>>)
    ensures
        r.target@ == keys_opts(texts(args@)).target,
        r.literal == keys_opts(texts(args@)).literal,
        texts(r.tokens@) == keys_opts(texts(args@)).tokens,
{
    let valued = vec!["-t"];
    let flags = vec!["-t", "-l"];
    proof {
        assert(words_of(valued@) =~= seq!["-t"@]);
        let listed = words_of(flags@);
        assert(listed =~= seq!["-t"@, "-l"@]);
        assert forall|w: Seq<char>| listed.contains(w) == (w == "-t"@ || w == "-l"@) by {
            assert(listed[0] == "-t"@ && listed[1] == "-l"@);
        }
        assert((|w: Seq<char>| listed.contains(w)) =~= (|w: Seq<char>| w == "-t"@ || w == "-l"@));
    }
    KeysOpts {
        target: option_text(args, &valued, "-t"),
        literal: has_flag(args, &valued, "-l"),
        tokens: words_except(args, &valued, &flags),
    }
}

/// Options of `capture-pane`. Line numbers stay as they were given: a negative
/// one reaches into the scrollback.
pub struct CapturePaneOpts {
    /// `-t`: the pane
    pub target: String,
    /// `-p`: print the text
    pub print: bool,
    /// `-S`: first line
    pub start: Option<String>,
    /// `-E`: last line
    pub end: Option<String>,
    /// `-e`: keep escape sequences
    pub escapes: bool,
}

/// The options of `capture-pane` that take a value.
pub open spec fn capture_valued() -> Seq<Seq<char>> {
    seq!["-t"@, "-S"@, "-E"@]
}

/// Reads the options of `capture-pane`.
pub fn parse_capture_pane_args(args: &[String]) -> (r: CapturePaneOpts)
    ensures
        r.target@ == value_or_empty(texts(args@), capture_valued(), "-t"@),
        r.print == is_given(texts(args@), capture_valued(), "-p"@),
        opt_text(r.start) == value_for(texts(args@), capture_valued(), "-S"@),
        opt_text(r.end) == value_for(texts(args@), capture_valued(), "-E"@),
        r.escapes == is_given(texts(args@), capture_valued(), "-e"@),
{
    let valued = vec!["-t", "-S", "-E"];
    assert(words_of(valued@) =~= capture_valued());
    CapturePaneOpts {
        target: option_text(args, &valued, "-t"),
        print: has_flag(args, &valued, "-p"),
        start: option_value(args, &valued, "-S"),
        end: option_value(args, &valued, "-E"),
        escapes: has_flag(args, &valued, "-e"),
    }
}

} // verus!
