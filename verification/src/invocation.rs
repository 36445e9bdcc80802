//! Reading the command line of an invocation.

use crate::args::{one_of, words_of};
use crate::text::{same, texts};
use vstd::prelude::*;

verus! {

/// What a command line asks for.
#[derive(Debug, PartialEq, Eq)]
pub enum Invocation<S, L> {
    /// show the version
    Version,
    /// nothing: there is no subcommand
    Nothing,
    /// run a subcommand
    Run { subcommand: S, args: L },
}

/// The global options that take a value.
pub open spec fn global_valued() -> Seq<Seq<char>> {
    seq!["-S"@, "-L"@, "-f"@, "-c"@, "-T"@]
}

/// The global options without a value.
pub open spec fn global_flags() -> Seq<Seq<char>> {
    seq!["-2"@, "-C"@, "-CC"@, "-D"@, "-l"@, "-q"@, "-u"@, "-v"@, "-V"@]
}

/// The place of the first word, from `i` on, that is neither a global option
/// nor the value of one.
pub open spec fn after_globals(words: Seq<Seq<char>>, i: int) -> int
    decreases
            if i < words.len() {
                words.len() - i
            } else {
                0
            },
{
    if i >= words.len() {
        words.len() as int
    } else if global_valued().contains(words[i]) {
        after_globals(words, i + 2)
    } else if global_flags().contains(words[i]) {
        after_globals(words, i + 1)
    } else {
        i
    }
}

/// What a command line asks for. Its first word names the program.
pub open spec fn invocation_of(words: Seq<Seq<char>>) -> Invocation<Seq<char>, Seq<Seq<char>>> {
    let place = after_globals(words, 1);
    if words.len() >= 2 && (words[1] == "--version"@ || words[1] == "-V"@) {
        Invocation::Version
    } else if place >= words.len() {
        Invocation::Nothing
    } else {
        Invocation::Run { subcommand: words[place], args: words.skip(place + 1) }
    }
}

impl View for Invocation<String, Vec<String>> {
    type V = Invocation<Seq<char>, Seq<Seq<char>>>;

    open spec fn view(&self) -> Invocation<Seq<char>, Seq<Seq<char>>> {
        match *self {
            Invocation::Version => Invocation::Version,
            Invocation::Nothing => Invocation::Nothing,
            Invocation::Run { subcommand, args } => Invocation::Run {
                subcommand: subcommand@,
                args: texts(args@),
            },
        }
    }
}

/// Reads a command line. Its first word names the program.
pub fn parse_invocation(argv: &[String]) -> (r: Invocation<String, Vec<String>>)
    ensures
        r@ == invocation_of(texts(argv@)),
{
    let ghost words = texts(argv@);
    let n: usize = argv.len();
    if n >= 2 && (same(argv[1].as_str(), "--version") || same(argv[1].as_str(), "-V")) {
        return Invocation::Version;
    }
    let valued = vec!["-S", "-L", "-f", "-c", "-T"];
    let flags = vec!["-2", "-C", "-CC", "-D", "-l", "-q", "-u", "-v", "-V"];
    assert(words_of(valued@) =~= global_valued());
    assert(words_of(flags@) =~= global_flags());
    let mut i: usize = 1;
    while i < n
        invariant_except_break
            n == argv@.len(),
            words == texts(argv@),
            words_of(valued@) == global_valued(),
            words_of(flags@) == global_flags(),
            after_globals(words, 1) == after_globals(words, i as int),
        ensures
            after_globals(words, 1) == (if i < n {
                i as int
            } else {
                words.len() as int
            }),
        decreases n - i,
    {
        let word = argv[i].as_str();
        assert(word@ == words[i as int]);
        if one_of(&valued, word) {
            assert(after_globals(words, i as int) == after_globals(words, i + 2));
            i = if i + 1 < n {
                i + 2
            } else {
                n
            };
        } else if one_of(&flags, word) {
            i += 1;
        } else {
            break ;
        }
    }
    if i >= n {
        return Invocation::Nothing;
    }
    let mut args: Vec<String> = Vec::new();
    let mut k: usize = i + 1;
    assert(texts(args@) =~= words.subrange(i + 1, i + 1));
    while k < n
        invariant
            n == argv@.len(),
            words == texts(argv@),
            i < k <= n,
            texts(args@) == words.subrange(i + 1, k as int),
        decreases n - k,
    {
        let ghost before = texts(args@);
        args.push(argv[k].clone());
        proof {
            assert(texts(args@) =~= before.push(words[k as int]));
            assert(texts(args@) =~= words.subrange(i + 1, k + 1));
        }
        k += 1;
    }
    assert(words.subrange(i + 1, n as int) =~= words.skip(i + 1));
    Invocation::Run { subcommand: argv[i].clone(), args }
}

/// The line that shows the version: which client the shim was verified against.
pub fn version_line(verified_against: &str) -> (r: String)
    ensures
        r@ == "tmux-wezterm-shim ("@ + verified_against@ + ")"@,
{
    let mut line: String = "tmux-wezterm-shim (".to_owned();
    line.append(verified_against);
    line.append(")");
    line
}

} // verus!
