//! Laws about command lines and formats.

use crate::args::{before_dashes, dashes_from, is_dashed, is_value};
use crate::commands::{
    dispatch_outcome, idle, set_env_outcome, show_env_outcome, split_outcome,
};
use crate::format::formatted;
use crate::invocation::{
    after_globals, global_flags, global_valued, invocation_of, Invocation,
};
use crate::options::{env_words, is_server_option, options_end};
use crate::panes::EnvView;
use crate::state::StateView;
use crate::text::{lemma_replaced_absent, occurs, replaced};
use crate::turn::{EffectView, NextView};
use vstd::prelude::*;

verus! {

/// `show-environment` shows what `set-environment` stored last.
pub proof fn law_show_after_set(
    set_words: Seq<Seq<char>>,
    show_words: Seq<Seq<char>>,
    s: StateView,
)
    requires
        env_words(set_words).len() >= 2,
        env_words(show_words).len() >= 1,
        env_words(show_words)[0] == env_words(set_words)[0],
    ensures
        show_env_outcome(show_words, set_env_outcome(set_words, s).state).turn.effects == seq![
            EffectView::Line(
                env_words(set_words)[0] + seq!['='] + env_words(set_words)[1],
            ),
        ],
        show_env_outcome(show_words, set_env_outcome(set_words, s).state).turn.next
            == NextView::Exit(0),
{
}

/// Setting a variable does not change what is shown of another one.
pub proof fn law_show_after_setting_another(
    set_words: Seq<Seq<char>>,
    show_words: Seq<Seq<char>>,
    s: StateView,
)
    requires
        env_words(set_words).len() >= 2,
        env_words(show_words).len() >= 1,
        env_words(show_words)[0] != env_words(set_words)[0],
    ensures
        show_env_outcome(show_words, set_env_outcome(set_words, s).state).turn == show_env_outcome(
            show_words,
            s,
        ).turn,
{
}

/// A variable can be set to any text, also to one that begins with a dash.
pub proof fn law_any_value_is_stored(
    flag: Seq<char>,
    name: Seq<char>,
    value: Seq<char>,
    s: StateView,
)
    requires
        is_dashed(flag),
        !is_dashed(name),
    ensures
        set_env_outcome(seq![flag, name, value], s).state == s.with_env(name, value),
{
    let words = seq![flag, name, value];
    assert(options_end(words, 1) == 1);
    assert(options_end(words, 0) == 1);
    assert(options_end(words, 3) == 3);
    assert(options_end(words, 2) == (if is_dashed(value) { 3int } else { 2int }));
    assert(env_words(words) =~= seq![name, value]);
}

/// An option after the name of a variable is not its value, where a value
/// follows.
pub proof fn law_options_are_not_values(
    name: Seq<char>,
    flag: Seq<char>,
    value: Seq<char>,
    s: StateView,
)
    requires
        !is_dashed(name),
        is_dashed(flag),
        !is_dashed(value),
    ensures
        set_env_outcome(seq![name, flag, value], s).state == s.with_env(name, value),
{
    let words = seq![name, flag, value];
    assert(options_end(words, 0) == 0);
    assert(options_end(words, 2) == 2);
    assert(options_end(words, 1) == 2);
    assert(env_words(words) =~= seq![name, value]);
}

/// `set-environment` stores variables whatever its options are; `set` does so
/// too, but for a server option, which it accepts without doing anything.
pub proof fn law_set_is_for_variables(words: Seq<Seq<char>>, env: EnvView, s: StateView)
    ensures
        dispatch_outcome("set-environment"@, words, env, s) == set_env_outcome(words, s),
        dispatch_outcome("set"@, words, env, s) == (if is_server_option(words) {
            idle(s)
        } else {
            set_env_outcome(words, s)
        }),
{
    reveal_strlit("set");
    reveal_strlit("set-environment");
    reveal_strlit("has-session");
    reveal_strlit("new-session");
    reveal_strlit("new-window");
    reveal_strlit("split-window");
    reveal_strlit("list-panes");
    reveal_strlit("display-message");
    reveal_strlit("select-pane");
    reveal_strlit("set-option");
    reveal_strlit("resize-pane");
    reveal_strlit("respawn-pane");
    assert("set"@.len() == 3 && "set-environment"@.len() == 15);
    assert("set-environment"@[0] != "display-message"@[0]);
}

/// What follows the `--` that ends the options of a split does not matter.
pub proof fn law_split_ignores_the_command(
    head: Seq<Seq<char>>,
    tail: Seq<Seq<char>>,
    other_tail: Seq<Seq<char>>,
    env: EnvView,
    s: StateView,
)
    requires
        !is_value(head, seq!["-t"@, "-F"@], head.len() as int),
    ensures
        split_outcome(head.push("--"@) + tail, env, s) == split_outcome(
            head.push("--"@) + other_tail,
            env,
            s,
        ),
{
    let valued = seq!["-t"@, "-F"@];
    let words = head.push("--"@) + tail;
    let other = head.push("--"@) + other_tail;
    assert(words.take(head.len() as int) =~= head);
    assert(other.take(head.len() as int) =~= head);
    lemma_same_head(head, words, other, valued, 0);
    assert(before_dashes(words, valued) =~= before_dashes(other, valued));
}

proof fn lemma_is_value_of_head(
    head: Seq<Seq<char>>,
    words: Seq<Seq<char>>,
    valued: Seq<Seq<char>>,
    i: int,
)
    requires
        0 <= i <= head.len() <= words.len(),
        words.take(head.len() as int) == head,
    ensures
        is_value(words, valued, i) == is_value(head, valued, i),
    decreases i,
{
    if i > 0 {
        lemma_is_value_of_head(head, words, valued, i - 1);
        assert(words.take(head.len() as int)[i - 1] == words[i - 1]);
    }
}

proof fn lemma_same_head(
    head: Seq<Seq<char>>,
    words: Seq<Seq<char>>,
    other: Seq<Seq<char>>,
    valued: Seq<Seq<char>>,
    i: int,
)
    requires
        0 <= i <= head.len(),
        head.len() < words.len(),
        head.len() < other.len(),
        words.take(head.len() as int) == head,
        other.take(head.len() as int) == head,
        words[head.len() as int] == "--"@,
        other[head.len() as int] == "--"@,
        !is_value(head, valued, head.len() as int),
    ensures
        dashes_from(words, valued, i) == dashes_from(other, valued, i),
        i <= dashes_from(words, valued, i) <= head.len(),
    decreases head.len() - i,
{
    lemma_is_value_of_head(head, words, valued, i);
    lemma_is_value_of_head(head, other, valued, i);
    if i < head.len() {
        assert(words.take(head.len() as int)[i] == words[i]);
        assert(other.take(head.len() as int)[i] == other[i]);
        lemma_same_head(head, words, other, valued, i + 1);
    }
}

/// A global option with a value, such as `-S <socket>`, does not change what
/// the rest of the command line asks for.
pub proof fn law_global_options_are_skipped(
    program: Seq<char>,
    option: Seq<char>,
    value: Seq<char>,
    rest: Seq<Seq<char>>,
)
    requires
        global_valued().contains(option),
        rest.len() > 0 ==> rest[0] != "--version"@ && rest[0] != "-V"@,
    ensures
        invocation_of(seq![program, option, value] + rest) == invocation_of(seq![program] + rest),
{
    let long = seq![program, option, value] + rest;
    let short = seq![program] + rest;
    assert(option != "--version"@ && option != "-V"@) by {
        reveal_strlit("--version");
        reveal_strlit("-V");
        reveal_strlit("-S");
        reveal_strlit("-L");
        reveal_strlit("-f");
        reveal_strlit("-c");
        reveal_strlit("-T");
        let i = choose|i: int| 0 <= i < global_valued().len() && global_valued()[i] == option;
        assert(option.len() == 2 && "--version"@.len() == 9);
        assert(option[1] != "-V"@[1]);
    }
    lemma_shifted_globals(long, short, 3);
    assert(after_globals(long, 1) == after_globals(long, 3));
    let place = after_globals(short, 1);
    if place < short.len() {
        assert(long.skip(place + 3) =~= short.skip(place + 1));
    }
}

proof fn lemma_shifted_globals(long: Seq<Seq<char>>, short: Seq<Seq<char>>, i: int)
    requires
        long.len() == short.len() + 2,
        3 <= i,
        forall|k: int| 3 <= k < long.len() ==> #[trigger] long[k] == short[k - 2],
    ensures
        after_globals(long, i) == after_globals(short, i - 2) + 2,
        i - 2 <= short.len() ==> i - 2 <= after_globals(short, i - 2) <= short.len(),
    decreases
            if i < long.len() {
                long.len() - i
            } else {
                0
            },
{
    if i < long.len() {
        lemma_shifted_globals(long, short, i + 1);
        lemma_shifted_globals(long, short, i + 2);
        assert(long[i] == short[i - 2]);
    }
}

proof fn lemma_global_flag(option: Seq<char>)
    requires
        option == "-2"@ || option == "-C"@ || option == "-CC"@ || option == "-D"@ || option == "-l"@
            || option == "-q"@ || option == "-u"@ || option == "-v"@,
    ensures
        option != "--version"@ && option != "-V"@,
        global_flags().contains(option),
        !global_valued().contains(option),
        global_flags().contains("-V"@) && !global_valued().contains("-V"@),
        !global_flags().contains("--version"@) && !global_valued().contains("--version"@),
{
    reveal_strlit("--version");
    reveal_strlit("-V");
    reveal_strlit("-2");
    reveal_strlit("-C");
    reveal_strlit("-CC");
    reveal_strlit("-D");
    reveal_strlit("-l");
    reveal_strlit("-q");
    reveal_strlit("-u");
    reveal_strlit("-v");
    reveal_strlit("-S");
    reveal_strlit("-L");
    reveal_strlit("-f");
    reveal_strlit("-c");
    reveal_strlit("-T");
    assert("--version"@.len() == 9 && "-V"@.len() == 2 && "-CC"@.len() == 3);
    assert(option != "-V"@) by {
        assert(option[1] != "-V"@[1]);
    }
    assert(!global_valued().contains(option)) by {
        if global_valued().contains(option) {
            let i = choose|i: int| 0 <= i < global_valued().len() && global_valued()[i] == option;
            assert(option.len() == 2);
            assert(global_valued()[i][1] == option[1]);
        }
    }
    assert(global_flags().contains(option)) by {
        let all = global_flags();
        assert(all[0] == "-2"@ && all[1] == "-C"@ && all[2] == "-CC"@ && all[3] == "-D"@ && all[4]
            == "-l"@ && all[5] == "-q"@ && all[6] == "-u"@ && all[7] == "-v"@);
    }
    assert(global_flags()[8] == "-V"@);
    assert(!global_valued().contains("-V"@)) by {
        if global_valued().contains("-V"@) {
            let i = choose|i: int| 0 <= i < global_valued().len() && global_valued()[i] == "-V"@;
            assert(global_valued()[i][1] == "-V"@[1]);
        }
    }
    assert(forall|i: int| 0 <= i < global_flags().len() ==> (#[trigger] global_flags()[i]).len() < 9);
    assert(forall|i: int|
        0 <= i < global_valued().len() ==> (#[trigger] global_valued()[i]).len() < 9);
}

proof fn lemma_global_valued(option: Seq<char>)
    requires
        option == "-S"@ || option == "-L"@ || option == "-f"@ || option == "-c"@ || option == "-T"@,
    ensures
        option != "--version"@ && option != "-V"@,
        global_valued().contains(option),
{
    reveal_strlit("--version");
    reveal_strlit("-V");
    reveal_strlit("-S");
    reveal_strlit("-L");
    reveal_strlit("-f");
    reveal_strlit("-c");
    reveal_strlit("-T");
    let all = global_valued();
    assert(all[0] == "-S"@ && all[1] == "-L"@ && all[2] == "-f"@ && all[3] == "-c"@ && all[4]
        == "-T"@);
    assert(option.len() == 2 && "--version"@.len() == 9);
    assert(option[1] != "-V"@[1]);
}

/// A global option with a value means for the rest what one without does.
pub proof fn lemma_valued_like_flag(
    program: Seq<char>,
    option: Seq<char>,
    value: Seq<char>,
    rest: Seq<Seq<char>>,
)
    requires
        option == "-S"@ || option == "-L"@ || option == "-f"@ || option == "-c"@ || option == "-T"@,
    ensures
        invocation_of(seq![program, option, value] + rest) == invocation_of(
            seq![program, "-2"@] + rest,
        ),
        invocation_of(seq![program, option]) == Invocation::<Seq<char>, Seq<Seq<char>>>::Nothing,
{
    let long = seq![program, option, value] + rest;
    let short = seq![program, "-2"@] + rest;
    lemma_global_valued(option);
    lemma_global_flag("-2"@);
    assert(long[1] == option && short[1] == "-2"@);
    assert(after_globals(long, 1) == after_globals(long, 3));
    assert(after_globals(short, 1) == after_globals(short, 2));
    assert forall|k: int| 3 <= k < long.len() implies #[trigger] long[k] == short[k - 1] by {}
    lemma_shifted_after(long, short, 3);
    let place = after_globals(short, 2);
    if place < short.len() {
        assert(long.skip(place + 2) =~= short.skip(place + 1));
    }
    let alone = seq![program, option];
    assert(alone[1] == option);
    assert(after_globals(alone, 1) == after_globals(alone, 3));
}

proof fn lemma_shifted_after(long: Seq<Seq<char>>, short: Seq<Seq<char>>, i: int)
    requires
        long.len() == short.len() + 1,
        3 <= i,
        forall|k: int| 3 <= k < long.len() ==> #[trigger] long[k] == short[k - 1],
    ensures
        after_globals(long, i) == after_globals(short, i - 1) + 1,
        i - 1 <= short.len() ==> i - 1 <= after_globals(short, i - 1) <= short.len(),
    decreases
            if i < long.len() {
                long.len() - i
            } else {
                0
            },
{
    if i < long.len() {
        lemma_shifted_after(long, short, i + 1);
        lemma_shifted_after(long, short, i + 2);
        assert(long[i] == short[i - 1]);
    }
}

/// The version is asked for by the first word only.
pub proof fn lemma_version_later(program: Seq<char>, option: Seq<char>, rest: Seq<Seq<char>>)
    requires
        option == "-2"@ || option == "-C"@ || option == "-CC"@ || option == "-D"@ || option == "-l"@
            || option == "-q"@ || option == "-u"@ || option == "-v"@,
    ensures
        invocation_of(seq![program, option, "--version"@] + rest) == (Invocation::<
            Seq<char>,
            Seq<Seq<char>>,
        >::Run { subcommand: "--version"@, args: rest }),
        invocation_of(seq![program, option, "-V"@] + rest) == invocation_of(
            seq![program, option] + rest,
        ),
{
    lemma_global_flag(option);
    let named = seq![program, option, "--version"@] + rest;
    assert(named[1] == option && named[2] == "--version"@);
    assert(after_globals(named, 1) == after_globals(named, 2));
    assert(named.skip(3) =~= rest);
    let long = seq![program, option, "-V"@] + rest;
    let short = seq![program, option] + rest;
    assert(long[1] == option && long[2] == "-V"@ && short[1] == option);
    assert(after_globals(long, 1) == after_globals(long, 2));
    assert(after_globals(long, 2) == after_globals(long, 3));
    assert(after_globals(short, 1) == after_globals(short, 2));
    assert forall|k: int| 3 <= k < long.len() implies #[trigger] long[k] == short[k - 1] by {}
    lemma_shifted_after(long, short, 3);
    let place = after_globals(short, 2);
    if place < short.len() {
        assert(long.skip(place + 2) =~= short.skip(place + 1));
    }
}

/// A global option without a value is skipped.
pub proof fn lemma_flag_skipped(program: Seq<char>, option: Seq<char>, rest: Seq<Seq<char>>)
    requires
        option == "-2"@ || option == "-C"@ || option == "-CC"@ || option == "-D"@ || option == "-l"@
            || option == "-q"@ || option == "-u"@ || option == "-v"@,
        rest.len() > 0 ==> rest[0] != "--version"@ && rest[0] != "-V"@,
    ensures
        invocation_of(seq![program, option] + rest) == invocation_of(seq![program] + rest),
{
    let long = seq![program, option] + rest;
    let short = seq![program] + rest;
    lemma_global_flag(option);
    assert(long[1] == option);
    assert(after_globals(long, 1) == after_globals(long, 2));
    lemma_shifted_by_one(long, short, 2);
    let place = after_globals(short, 1);
    if place < short.len() {
        assert(long.skip(place + 2) =~= short.skip(place + 1));
    }
}

proof fn lemma_shifted_by_one(long: Seq<Seq<char>>, short: Seq<Seq<char>>, i: int)
    requires
        long.len() == short.len() + 1,
        2 <= i,
        forall|k: int| 2 <= k < long.len() ==> #[trigger] long[k] == short[k - 1],
    ensures
        after_globals(long, i) == after_globals(short, i - 1) + 1,
        i - 1 <= short.len() ==> i - 1 <= after_globals(short, i - 1) <= short.len(),
    decreases
            if i < long.len() {
                long.len() - i
            } else {
                0
            },
{
    if i < long.len() {
        lemma_shifted_by_one(long, short, i + 1);
        lemma_shifted_by_one(long, short, i + 2);
        assert(long[i] == short[i - 1]);
    }
}

// -------------------------------------------------------------------- formats

/// Whether a text has no `#`.
pub open spec fn no_hash(s: Seq<char>) -> bool {
    forall|i: int| 0 <= i < s.len() ==> #[trigger] s[i] != '#'
}

/// Plain text before a text is left alone.
pub proof fn lemma_plain_text_stays(a: Seq<char>, s: Seq<char>, pat: Seq<char>, with: Seq<char>)
    requires
        no_hash(a),
        pat.len() > 0,
        pat[0] == '#',
    ensures
        replaced(a + s, pat, with) == a + replaced(s, pat, with),
    decreases a.len(),
{
    if a.len() == 0 {
        assert(a + s =~= s);
        assert(a + replaced(s, pat, with) =~= replaced(s, pat, with));
    } else {
        let rest = a.skip(1);
        assert((a + s).skip(1) =~= rest + s);
        lemma_plain_text_stays(rest, s, pat, with);
        assert(seq![a[0]] + (rest + replaced(s, pat, with)) =~= a + replaced(s, pat, with));
        if (a + s).len() < pat.len() {
            assert(replaced(s, pat, with) == s);
        } else {
            assert((a + s).take(pat.len() as int)[0] != pat[0]);
            assert((a + s)[0] == a[0]);
        }
    }
}

proof fn lemma_no_hash_no_token(s: Seq<char>, pat: Seq<char>, with: Seq<char>)
    requires
        no_hash(s),
        pat.len() > 0,
        pat[0] == '#',
    ensures
        replaced(s, pat, with) == s,
{
    assert(!occurs(s, pat)) by {
        if occurs(s, pat) {
            let i = choose|i: int|
                0 <= i <= s.len() - pat.len() && #[trigger] s.subrange(i, i + pat.len()) == pat;
            assert(s.subrange(i, i + pat.len())[0] == s[i]);
        }
    }
    lemma_replaced_absent(s, pat, with);
}

proof fn lemma_token_filled(a: Seq<char>, b: Seq<char>, pat: Seq<char>, with: Seq<char>)
    requires
        no_hash(a),
        no_hash(b),
        pat.len() > 0,
        pat[0] == '#',
    ensures
        replaced(a + pat + b, pat, with) == a + with + b,
{
    assert(a + pat + b =~= a + (pat + b));
    lemma_plain_text_stays(a, pat + b, pat, with);
    assert((pat + b).take(pat.len() as int) =~= pat);
    assert((pat + b).skip(pat.len() as int) =~= b);
    lemma_no_hash_no_token(b, pat, with);
    assert(a + (with + b) =~= a + with + b);
}

proof fn lemma_tokens()
    ensures
        "#{pane_id}"@.len() > 0 && "#{pane_id}"@[0] == '#',
        "#{window_id}"@.len() > 0 && "#{window_id}"@[0] == '#',
        "#{client_termtype}"@.len() > 0 && "#{client_termtype}"@[0] == '#',
        "#{client_control_mode}"@.len() > 0 && "#{client_control_mode}"@[0] == '#',
{
    reveal_strlit("#{pane_id}");
    reveal_strlit("#{window_id}");
    reveal_strlit("#{client_termtype}");
    reveal_strlit("#{client_control_mode}");
}

/// The placeholder for the pane id is filled in, and the plain text around it
/// stays.
pub proof fn law_pane_id_is_filled_in(
    before: Seq<char>,
    after: Seq<char>,
    pane_id: Seq<char>,
    window_id: Option<Seq<char>>,
)
    requires
        no_hash(before),
        no_hash(after),
        no_hash(pane_id),
    ensures
        formatted(before + "#{pane_id}"@ + after, Some(pane_id), window_id) == before + pane_id
            + after,
{
    lemma_tokens();
    lemma_token_filled(before, after, "#{pane_id}"@, pane_id);
    let done = before + pane_id + after;
    if let Some(wid) = window_id {
        lemma_no_hash_no_token(done, "#{window_id}"@, wid);
    }
    lemma_no_hash_no_token(done, "#{client_termtype}"@, "tmux-256color"@);
    lemma_no_hash_no_token(done, "#{client_control_mode}"@, "0"@);
}

/// A text whose only `#` begins `#{w` does not hold `#{pane_id}`.
proof fn lemma_window_is_not_pane(before: Seq<char>, after: Seq<char>, with: Seq<char>)
    requires
        no_hash(before),
        no_hash(after),
    ensures
        replaced(before + "#{window_id}"@ + after, "#{pane_id}"@, with) == before
            + "#{window_id}"@ + after,
{
    let token = "#{window_id}"@;
    let pat = "#{pane_id}"@;
    let s = before + token + after;
    reveal_strlit("#{pane_id}");
    reveal_strlit("#{window_id}");
    assert(!occurs(s, pat)) by {
        if occurs(s, pat) {
            let i = choose|i: int|
                0 <= i <= s.len() - pat.len() && #[trigger] s.subrange(i, i + pat.len()) == pat;
            let found = s.subrange(i, i + pat.len());
            assert(found[0] == s[i] && found[2] == s[i + 2]);
            if i < before.len() {
                assert(s[i] == before[i]);
            } else if i < before.len() + token.len() {
                assert(s[i] == token[i - before.len()]);
                assert(i == before.len());
                assert(s[i + 2] == token[2]);
            } else {
                assert(s[i] == after[i - before.len() - token.len()]);
            }
        }
    }
    lemma_replaced_absent(s, pat, with);
}

/// The placeholder for the window id is filled in, and the plain text around
/// it stays.
pub proof fn law_window_id_is_filled_in(
    before: Seq<char>,
    after: Seq<char>,
    pane_id: Option<Seq<char>>,
    window_id: Seq<char>,
)
    requires
        no_hash(before),
        no_hash(after),
        no_hash(window_id),
    ensures
        formatted(before + "#{window_id}"@ + after, pane_id, Some(window_id)) == before + window_id
            + after,
{
    lemma_tokens();
    let done = before + window_id + after;
    if let Some(pid) = pane_id {
        lemma_window_is_not_pane(before, after, pid);
    }
    lemma_token_filled(before, after, "#{window_id}"@, window_id);
    lemma_no_hash_no_token(done, "#{client_termtype}"@, "tmux-256color"@);
    lemma_no_hash_no_token(done, "#{client_control_mode}"@, "0"@);
}

} // verus!
