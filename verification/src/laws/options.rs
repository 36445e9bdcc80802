//! What each word on the command line of a subcommand does.

use crate::args::{is_dashed, is_given, value_for, value_or_empty};
use crate::laws::lines::{
    in_options, law_dashes_end_the_options, law_values_follow_their_options, lemma_given_last_push,
    lemma_given_push, lemma_operands_push, lemma_value_for_pair, lemma_value_for_push, settled,
};
use crate::options::{
    capture_valued, env_words, is_server_option, keys_opts, list_opts, message_format, new_opts,
    option_words, options_end, respawn_opts, select_opts, split_opts, target_opt, KeysOpts,
    ListOpts, NewOpts, RespawnOpts, SelectOpts, SplitOpts,
};
use vstd::prelude::*;

verus! {

/// The flags differ from each other.
proof fn lemma_flags()
    ensures
        "-t"@.len() == 2 && "-t"@[0] == '-' && "-t"@[1] == 't',
        "-F"@.len() == 2 && "-F"@[0] == '-' && "-F"@[1] == 'F',
        "-P"@.len() == 2 && "-P"@[0] == '-' && "-P"@[1] == 'P',
        "-T"@.len() == 2 && "-T"@[0] == '-' && "-T"@[1] == 'T',
        "-S"@.len() == 2 && "-S"@[0] == '-' && "-S"@[1] == 'S',
        "-E"@.len() == 2 && "-E"@[0] == '-' && "-E"@[1] == 'E',
        "-h"@.len() == 2 && "-h"@[0] == '-' && "-h"@[1] == 'h',
        "-v"@.len() == 2 && "-v"@[0] == '-' && "-v"@[1] == 'v',
        "-p"@.len() == 2 && "-p"@[0] == '-' && "-p"@[1] == 'p',
        "-e"@.len() == 2 && "-e"@[0] == '-' && "-e"@[1] == 'e',
        "-l"@.len() == 2 && "-l"@[0] == '-' && "-l"@[1] == 'l',
        "--"@.len() == 2 && "--"@[0] == '-' && "--"@[1] == '-',
        "-as"@.len() == 3 && "-as"@[0] == '-',
{
    reveal_strlit("-t");
    reveal_strlit("-F");
    reveal_strlit("-P");
    reveal_strlit("-T");
    reveal_strlit("-S");
    reveal_strlit("-E");
    reveal_strlit("-h");
    reveal_strlit("-v");
    reveal_strlit("-p");
    reveal_strlit("-e");
    reveal_strlit("-l");
    reveal_strlit("--");
    reveal_strlit("-as");
}

proof fn lemma_one(a: Seq<char>, word: Seq<char>)
    ensures
        seq![a].contains(word) == (word == a),
{
    assert(seq![a][0] == a);
}

proof fn lemma_two(a: Seq<char>, b: Seq<char>, word: Seq<char>)
    ensures
        seq![a, b].contains(word) == (word == a || word == b),
{
    assert(seq![a, b][0] == a && seq![a, b][1] == b);
}

proof fn lemma_three(a: Seq<char>, b: Seq<char>, c: Seq<char>, word: Seq<char>)
    ensures
        seq![a, b, c].contains(word) == (word == a || word == b || word == c),
{
    assert(seq![a, b, c][0] == a && seq![a, b, c][1] == b && seq![a, b, c][2] == c);
}

/// `new-session` and `new-window`: `-P` asks for the pane to be shown, `-F` says
/// how, and the last `-F` counts. Other words, and all words after `--`, do not
/// matter.
pub proof fn law_new_options(
    words: Seq<Seq<char>>,
    word: Seq<char>,
    value: Seq<char>,
    tail: Seq<Seq<char>>,
)
    requires
        in_options(words, seq!["-F"@]),
    ensures
        new_opts(Seq::empty()) == (NewOpts { print: false, format: Seq::<char>::empty() }),
        new_opts(words.push("-P"@)) == (NewOpts { print: true, ..new_opts(words) }),
        new_opts(words.push("-F"@).push(value)) == (NewOpts { format: value, ..new_opts(words) }),
        new_opts(words.push("-F"@)) == new_opts(words),
        word != "-P"@ && word != "-F"@ && word != "--"@ ==> new_opts(words.push(word)) == new_opts(
            words,
        ),
        new_opts(words.push("--"@) + tail) == new_opts(words),
{
    let valued = seq!["-F"@];
    lemma_flags();
    lemma_one("-F"@, "--"@);
    lemma_one("-F"@, "-F"@);
    lemma_one("-F"@, "-P"@);
    lemma_one("-F"@, word);
    law_dashes_end_the_options(words, valued, word, value, tail);
    law_dashes_end_the_options(words, valued, "-P"@, value, tail);
    law_dashes_end_the_options(words, valued, "-F"@, value, tail);
    law_dashes_end_the_options(Seq::empty(), valued, word, value, tail);
    law_dashes_end_the_options(words.push("-F"@).push(value), valued, word, value, tail);
    law_dashes_end_the_options(words.push("-P"@), valued, word, value, tail);
    law_dashes_end_the_options(words.push(word), valued, word, value, tail);
    lemma_value_for_pair(words, valued, "-F"@, value, "-F"@);
    lemma_value_for_push(words, valued, "-P"@, "-F"@);
    lemma_value_for_push(words, valued, word, "-F"@);
    lemma_given_push(words, valued, "-P"@, "-P"@);
    lemma_given_push(words, valued, word, "-P"@);
    lemma_given_push(words, valued, "-F"@, "-P"@);
    law_values_follow_their_options(words, valued, "-F"@, value);
    lemma_given_push(words.push("-F"@), valued, value, "-P"@);
}

/// `split-window`: `-t` names the pane, `-h` and `-v` the direction, `-P` asks
/// for the new pane to be shown and `-F` says how. What comes later counts.
/// Other words, and all words after `--`, do not matter.
pub proof fn law_split_options(
    words: Seq<Seq<char>>,
    word: Seq<char>,
    value: Seq<char>,
    tail: Seq<Seq<char>>,
)
    requires
        in_options(words, seq!["-t"@, "-F"@]),
    ensures
        split_opts(Seq::empty()) == (SplitOpts {
            target: Seq::<char>::empty(),
            horizontal: false,
            print: false,
            format: Seq::<char>::empty(),
        }),
        split_opts(words.push("-h"@)) == (SplitOpts { horizontal: true, ..split_opts(words) }),
        split_opts(words.push("-v"@)) == (SplitOpts { horizontal: false, ..split_opts(words) }),
        split_opts(words.push("-P"@)) == (SplitOpts { print: true, ..split_opts(words) }),
        split_opts(words.push("-t"@).push(value)) == (SplitOpts {
            target: value,
            ..split_opts(words)
        }),
        split_opts(words.push("-F"@).push(value)) == (SplitOpts {
            format: value,
            ..split_opts(words)
        }),
        split_opts(words.push("-t"@)) == split_opts(words),
        split_opts(words.push("-F"@)) == split_opts(words),
        word != "-h"@ && word != "-v"@ && word != "-P"@ && word != "-t"@ && word != "-F"@ && word
            != "--"@ ==> split_opts(words.push(word)) == split_opts(words),
        split_opts(words.push("--"@) + tail) == split_opts(words),
{
    let valued = seq!["-t"@, "-F"@];
    lemma_flags();
    lemma_two("-t"@, "-F"@, "--"@);
    law_dashes_end_the_options(Seq::empty(), valued, word, value, tail);
    law_dashes_end_the_options(words, valued, word, value, tail);
    lemma_split_word(words, "-h"@);
    lemma_split_word(words, "-v"@);
    lemma_split_word(words, "-P"@);
    if word != "-t"@ && word != "-F"@ && word != "--"@ {
        lemma_split_word(words, word);
    }
    lemma_split_pair(words, "-t"@, value);
    lemma_split_pair(words, "-F"@, value);
    assert(!is_given(Seq::<Seq<char>>::empty(), valued, "-P"@));
}

proof fn lemma_split_word(words: Seq<Seq<char>>, word: Seq<char>)
    requires
        in_options(words, seq!["-t"@, "-F"@]),
        word != "-t"@ && word != "-F"@ && word != "--"@,
    ensures
        split_opts(words.push(word)) == (SplitOpts {
            horizontal: if word == "-h"@ {
                true
            } else if word == "-v"@ {
                false
            } else {
                split_opts(words).horizontal
            },
            print: split_opts(words).print || word == "-P"@,
            ..split_opts(words)
        }),
{
    let valued = seq!["-t"@, "-F"@];
    lemma_flags();
    lemma_two("-t"@, "-F"@, "--"@);
    lemma_two("-t"@, "-F"@, word);
    law_dashes_end_the_options(words, valued, word, word, Seq::empty());
    law_dashes_end_the_options(words.push(word), valued, word, word, Seq::empty());
    lemma_value_for_push(words, valued, word, "-t"@);
    lemma_value_for_push(words, valued, word, "-F"@);
    lemma_given_push(words, valued, word, "-P"@);
    lemma_given_last_push(words, valued, word, "-h"@, "-v"@);
}

proof fn lemma_split_pair(words: Seq<Seq<char>>, option: Seq<char>, value: Seq<char>)
    requires
        in_options(words, seq!["-t"@, "-F"@]),
        option == "-t"@ || option == "-F"@,
    ensures
        split_opts(words.push(option)) == split_opts(words),
        split_opts(words.push(option).push(value)) == (SplitOpts {
            target: if option == "-t"@ {
                value
            } else {
                split_opts(words).target
            },
            format: if option == "-F"@ {
                value
            } else {
                split_opts(words).format
            },
            ..split_opts(words)
        }),
{
    let valued = seq!["-t"@, "-F"@];
    let more = words.push(option);
    lemma_flags();
    lemma_two("-t"@, "-F"@, "--"@);
    lemma_two("-t"@, "-F"@, option);
    law_dashes_end_the_options(words, valued, option, value, Seq::empty());
    law_dashes_end_the_options(more.push(value), valued, option, value, Seq::empty());
    law_values_follow_their_options(words, valued, option, value);
    lemma_value_for_pair(words, valued, option, value, "-t"@);
    lemma_value_for_pair(words, valued, option, value, "-F"@);
    lemma_given_push(words, valued, option, "-P"@);
    lemma_given_push(more, valued, value, "-P"@);
    lemma_given_last_push(words, valued, option, "-h"@, "-v"@);
    lemma_given_last_push(more, valued, value, "-h"@, "-v"@);
}

/// `list-panes`: `-t` names what to list and `-F` says how; the last of each
/// counts. Other words do not matter.
pub proof fn law_list_options(words: Seq<Seq<char>>, word: Seq<char>, value: Seq<char>)
    requires
        settled(words, seq!["-t"@, "-F"@]),
    ensures
        list_opts(Seq::empty()) == (ListOpts {
            target: Seq::<char>::empty(),
            format: Seq::<char>::empty(),
        }),
        list_opts(words.push("-t"@).push(value)) == (ListOpts {
            target: value,
            ..list_opts(words)
        }),
        list_opts(words.push("-F"@).push(value)) == (ListOpts {
            format: value,
            ..list_opts(words)
        }),
        list_opts(words.push("-t"@)) == list_opts(words),
        list_opts(words.push("-F"@)) == list_opts(words),
        word != "-t"@ && word != "-F"@ ==> list_opts(words.push(word)) == list_opts(words),
{
    let valued = seq!["-t"@, "-F"@];
    lemma_flags();
    lemma_two("-t"@, "-F"@, "-t"@);
    lemma_two("-t"@, "-F"@, "-F"@);
    lemma_value_for_pair(words, valued, "-t"@, value, "-t"@);
    lemma_value_for_pair(words, valued, "-t"@, value, "-F"@);
    lemma_value_for_pair(words, valued, "-F"@, value, "-t"@);
    lemma_value_for_pair(words, valued, "-F"@, value, "-F"@);
    lemma_value_for_push(words, valued, word, "-t"@);
    lemma_value_for_push(words, valued, word, "-F"@);
}

/// `select-pane`: `-t` names the pane and `-T` its title; the last of each
/// counts. Other words do not matter.
pub proof fn law_select_options(words: Seq<Seq<char>>, word: Seq<char>, value: Seq<char>)
    requires
        settled(words, seq!["-t"@, "-T"@]),
    ensures
        select_opts(Seq::empty()) == (SelectOpts {
            target: Seq::<char>::empty(),
            title: Seq::<char>::empty(),
        }),
        select_opts(words.push("-t"@).push(value)) == (SelectOpts {
            target: value,
            ..select_opts(words)
        }),
        select_opts(words.push("-T"@).push(value)) == (SelectOpts {
            title: value,
            ..select_opts(words)
        }),
        select_opts(words.push("-t"@)) == select_opts(words),
        select_opts(words.push("-T"@)) == select_opts(words),
        word != "-t"@ && word != "-T"@ ==> select_opts(words.push(word)) == select_opts(words),
{
    let valued = seq!["-t"@, "-T"@];
    lemma_flags();
    lemma_two("-t"@, "-T"@, "-t"@);
    lemma_two("-t"@, "-T"@, "-T"@);
    lemma_value_for_pair(words, valued, "-t"@, value, "-t"@);
    lemma_value_for_pair(words, valued, "-t"@, value, "-T"@);
    lemma_value_for_pair(words, valued, "-T"@, value, "-t"@);
    lemma_value_for_pair(words, valued, "-T"@, value, "-T"@);
    lemma_value_for_push(words, valued, word, "-t"@);
    lemma_value_for_push(words, valued, word, "-T"@);
}

/// `-t` names the target of `set-option`, `kill-pane` and `kill-window`, and the
/// last one counts. Other words do not matter.
pub proof fn law_target_option(words: Seq<Seq<char>>, word: Seq<char>, value: Seq<char>)
    requires
        settled(words, seq!["-t"@]),
    ensures
        target_opt(Seq::empty()) == Seq::<char>::empty(),
        target_opt(words.push("-t"@).push(value)) == value,
        target_opt(words.push("-t"@)) == target_opt(words),
        word != "-t"@ ==> target_opt(words.push(word)) == target_opt(words),
{
    let valued = seq!["-t"@];
    lemma_one("-t"@, "-t"@);
    lemma_value_for_pair(words, valued, "-t"@, value, "-t"@);
    lemma_value_for_push(words, valued, word, "-t"@);
}

/// `set-option`: the words that do not begin with a dash, but for the value of
/// `-t`, are the name of the option and its value.
pub proof fn law_option_words(words: Seq<Seq<char>>, word: Seq<char>, value: Seq<char>)
    requires
        settled(words, seq!["-t"@]),
    ensures
        option_words(Seq::empty()) == Seq::<Seq<char>>::empty(),
        option_words(words.push("-t"@).push(value)) == option_words(words),
        option_words(words.push("-t"@)) == option_words(words),
        word.len() > 0 && word[0] == '-' ==> option_words(words.push(word)) == option_words(words),
        word.len() == 0 || word[0] != '-' ==> option_words(words.push(word)) == option_words(
            words,
        ).push(word),
{
    let valued = seq!["-t"@];
    let is_option = |w: Seq<char>| is_dashed(w);
    lemma_flags();
    lemma_one("-t"@, "-t"@);
    law_values_follow_their_options(words, valued, "-t"@, value);
    lemma_operands_push(words, valued, "-t"@, is_option);
    lemma_operands_push(words.push("-t"@), valued, value, is_option);
    lemma_operands_push(words, valued, word, is_option);
}

/// `respawn-pane`: `-t` names the pane, and the words after `--` are the
/// command. Other words do not matter.
pub proof fn law_respawn_options(
    words: Seq<Seq<char>>,
    word: Seq<char>,
    value: Seq<char>,
    tail: Seq<Seq<char>>,
)
    requires
        in_options(words, seq!["-t"@]),
    ensures
        respawn_opts(Seq::empty()).target == Seq::<char>::empty(),
        respawn_opts(words).command == Seq::<Seq<char>>::empty(),
        respawn_opts(words.push("-t"@).push(value)) == (RespawnOpts {
            target: value,
            ..respawn_opts(words)
        }),
        respawn_opts(words.push("-t"@)) == respawn_opts(words),
        word != "-t"@ && word != "--"@ ==> respawn_opts(words.push(word)) == respawn_opts(words),
        respawn_opts(words.push("--"@) + tail) == (RespawnOpts {
            command: tail,
            ..respawn_opts(words)
        }),
{
    let valued = seq!["-t"@];
    lemma_flags();
    lemma_one("-t"@, "-t"@);
    lemma_one("-t"@, "--"@);
    lemma_one("-t"@, word);
    law_dashes_end_the_options(Seq::empty(), valued, word, value, tail);
    law_dashes_end_the_options(words, valued, word, value, tail);
    law_dashes_end_the_options(words, valued, "-t"@, value, tail);
    law_dashes_end_the_options(words.push(word), valued, word, value, tail);
    law_dashes_end_the_options(words.push("-t"@).push(value), valued, word, value, tail);
    lemma_value_for_pair(words, valued, "-t"@, value, "-t"@);
    lemma_value_for_push(words, valued, word, "-t"@);
}

/// `send-keys`: `-t` names the pane, `-l` makes the tokens plain text, and every
/// other word is a token.
pub proof fn law_keys_options(words: Seq<Seq<char>>, word: Seq<char>, value: Seq<char>)
    requires
        settled(words, seq!["-t"@]),
    ensures
        keys_opts(Seq::empty()) == (KeysOpts {
            target: Seq::<char>::empty(),
            literal: false,
            tokens: Seq::<Seq<char>>::empty(),
        }),
        keys_opts(words.push("-t"@).push(value)) == (KeysOpts {
            target: value,
            ..keys_opts(words)
        }),
        keys_opts(words.push("-t"@)) == keys_opts(words),
        keys_opts(words.push("-l"@)) == (KeysOpts { literal: true, ..keys_opts(words) }),
        word != "-t"@ && word != "-l"@ ==> keys_opts(words.push(word)) == (KeysOpts {
            tokens: keys_opts(words).tokens.push(word),
            ..keys_opts(words)
        }),
{
    let valued = seq!["-t"@];
    let is_option = |w: Seq<char>| w == "-t"@ || w == "-l"@;
    let more = words.push("-t"@);
    lemma_flags();
    lemma_one("-t"@, "-t"@);
    law_values_follow_their_options(words, valued, "-t"@, value);
    lemma_value_for_pair(words, valued, "-t"@, value, "-t"@);
    lemma_value_for_push(words, valued, "-l"@, "-t"@);
    lemma_value_for_push(words, valued, word, "-t"@);
    lemma_given_push(words, valued, "-t"@, "-l"@);
    lemma_given_push(more, valued, value, "-l"@);
    lemma_given_push(words, valued, "-l"@, "-l"@);
    lemma_given_push(words, valued, word, "-l"@);
    lemma_operands_push(words, valued, "-t"@, is_option);
    lemma_operands_push(more, valued, value, is_option);
    lemma_operands_push(words, valued, "-l"@, is_option);
    lemma_operands_push(words, valued, word, is_option);
    assert(!is_given(Seq::<Seq<char>>::empty(), valued, "-l"@));
}

/// `capture-pane`: the value of `-t`, `-S` or `-E` is the word after it, and the
/// last one counts. No other word matters to it.
pub proof fn law_capture_values(
    words: Seq<Seq<char>>,
    option: Seq<char>,
    value: Seq<char>,
    word: Seq<char>,
    flag: Seq<char>,
)
    requires
        settled(words, seq!["-t"@, "-S"@, "-E"@]),
        option == "-t"@ || option == "-S"@ || option == "-E"@,
        word != "-t"@ && word != "-S"@ && word != "-E"@,
    ensures
        value_for(Seq::empty(), capture_valued(), flag) is None,
        value_for(words.push(option).push(value), capture_valued(), flag) == (if flag == option {
            Some(value)
        } else {
            value_for(words, capture_valued(), flag)
        }),
        value_for(words.push(option), capture_valued(), flag) == value_for(
            words,
            capture_valued(),
            flag,
        ),
        value_for(words.push(word), capture_valued(), flag) == value_for(
            words,
            capture_valued(),
            flag,
        ),
        value_or_empty(words, capture_valued(), flag) == (match value_for(
            words,
            capture_valued(),
            flag,
        ) {
            Some(v) => v,
            None => Seq::<char>::empty(),
        }),
{
    lemma_three("-t"@, "-S"@, "-E"@, option);
    lemma_value_for_pair(words, capture_valued(), option, value, flag);
    lemma_value_for_push(words, capture_valued(), word, flag);
}

/// `capture-pane`: `-p` or `-e` is given once it stands anywhere but as the value
/// of an option. No other word matters to it.
pub proof fn law_capture_flags(
    words: Seq<Seq<char>>,
    option: Seq<char>,
    value: Seq<char>,
    word: Seq<char>,
    flag: Seq<char>,
)
    requires
        settled(words, seq!["-t"@, "-S"@, "-E"@]),
        option == "-t"@ || option == "-S"@ || option == "-E"@,
        flag == "-p"@ || flag == "-e"@,
        word != flag,
    ensures
        !is_given(Seq::empty(), capture_valued(), flag),
        is_given(words.push(flag), capture_valued(), flag),
        is_given(words.push(word), capture_valued(), flag) == is_given(
            words,
            capture_valued(),
            flag,
        ),
        is_given(words.push(option).push(value), capture_valued(), flag) == is_given(
            words,
            capture_valued(),
            flag,
        ),
{
    lemma_flags();
    lemma_three("-t"@, "-S"@, "-E"@, option);
    law_values_follow_their_options(words, capture_valued(), option, value);
    lemma_given_push(words, capture_valued(), flag, flag);
    lemma_given_push(words, capture_valued(), word, flag);
    lemma_given_push(words, capture_valued(), option, flag);
    lemma_given_push(words.push(option), capture_valued(), value, flag);
}

/// `display-message`: the format is the word right after a `-p`, or the first
/// other word after one. A word that begins with a dash is never the format.
pub proof fn law_message_format(words: Seq<Seq<char>>, word: Seq<char>)
    ensures
        message_format(Seq::empty(), 0) == Seq::<char>::empty(),
        ({
            let before = message_format(words, words.len() as int);
            let after = message_format(words.push(word), words.len() as int + 1);
            if word.len() > 0 && word[0] == '-' {
                after == before
            } else if words.len() > 0 && words.last() == "-p"@ {
                after == word
            } else if before.len() == 0 && words.contains("-p"@) {
                after == word
            } else {
                after == before
            }
        }),
{
    lemma_message_push(words, word, words.len() as int);
    let more = words.push(word);
    assert(more[words.len() as int] == word);
    assert(more.take(words.len() as int) =~= words);
    if words.len() > 0 {
        assert(more[words.len() - 1] == words.last());
    }
}

proof fn lemma_message_push(words: Seq<Seq<char>>, word: Seq<char>, n: int)
    requires
        n <= words.len(),
    ensures
        message_format(words.push(word), n) == message_format(words, n),
    decreases n,
{
    if n > 0 {
        let more = words.push(word);
        lemma_message_push(words, word, n - 1);
        assert(more[n - 1] == words[n - 1]);
        assert(more.take(n - 1) =~= words.take(n - 1));
        if n > 1 {
            assert(more[n - 2] == words[n - 2]);
        }
    }
}

proof fn lemma_options_end_push(words: Seq<Seq<char>>, word: Seq<char>, i: int)
    requires
        0 <= i <= words.len(),
    ensures
        i <= options_end(words, i) <= words.len(),
        options_end(words, i) < words.len() ==> !is_dashed(words[options_end(words, i)]),
        options_end(words.push(word), i) == (if options_end(words, i) < words.len() || !is_dashed(
            word,
        ) {
            options_end(words, i)
        } else {
            words.len() as int + 1
        }),
    decreases words.len() - i,
{
    let more = words.push(word);
    if i < words.len() {
        assert(more[i] == words[i]);
        lemma_options_end_push(words, word, i + 1);
    } else {
        assert(more[i] == word);
        assert(options_end(more, i + 1) == i + 1);
    }
}

/// `set-environment` and `show-environment`: the first word without a dash is
/// the name. The word after it is the value for as long as all words after the
/// name begin with a dash; the first one that does not takes its place.
pub proof fn law_env_words(words: Seq<Seq<char>>, word: Seq<char>)
    ensures
        env_words(Seq::empty()) == Seq::<Seq<char>>::empty(),
        ({
            let before = env_words(words);
            let after = env_words(words.push(word));
            let dashed = word.len() > 0 && word[0] == '-';
            if before.len() == 0 {
                after == if dashed {
                    Seq::<Seq<char>>::empty()
                } else {
                    seq![word]
                }
            } else if before.len() == 1 {
                after == seq![before[0], word]
            } else if before[1].len() > 0 && before[1][0] == '-' && !dashed {
                after == seq![before[0], word]
            } else {
                after == before
            }
        }),
{
    let more = words.push(word);
    let name = options_end(words, 0);
    lemma_options_end_push(words, word, 0);
    if name < words.len() {
        lemma_options_end_push(words, word, name + 1);
        let value = options_end(words, name + 1);
        lemma_between_is_dashed(words, name + 1, name + 1);
        assert(more[name] == words[name]);
        if value < words.len() {
            assert(more[value] == words[value]);
        }
        if name + 1 < words.len() {
            assert(more[name + 1] == words[name + 1]);
        }
        assert(more[words.len() as int] == word);
    } else if name == words.len() && !is_dashed(word) {
        assert(more[name] == word);
        assert(options_end(more, name + 1) == more.len());
    }
}

proof fn lemma_between_is_dashed(words: Seq<Seq<char>>, i: int, k: int)
    requires
        0 <= i <= k < options_end(words, i) || 0 <= i <= words.len(),
    ensures
        i <= k < options_end(words, i) ==> is_dashed(words[k]),
    decreases words.len() - i,
{
    if 0 <= i < words.len() && is_dashed(words[i]) && i < k {
        lemma_between_is_dashed(words, i + 1, k);
    }
}

/// `set -as`: a server option is named where `-as` stands before the first word
/// without a dash.
pub proof fn law_server_option(words: Seq<Seq<char>>, word: Seq<char>)
    ensures
        !is_server_option(Seq::empty()),
        is_server_option(words.push(word)) == (is_server_option(words) || (env_words(words).len()
            == 0 && word == "-as"@)),
{
    let more = words.push(word);
    let n = options_end(words, 0);
    lemma_flags();
    lemma_options_end_push(words, word, 0);
    let before = words.take(n);
    let after = more.take(options_end(more, 0));
    if n < words.len() || !is_dashed(word) {
        assert(after =~= before);
    } else {
        assert(before =~= words);
        assert(after =~= words.push(word));
        if words.contains("-as"@) {
            let k = choose|k: int| 0 <= k < words.len() && words[k] == "-as"@;
            assert(after[k] == "-as"@);
        }
        if word == "-as"@ {
            assert(after[words.len() as int] == "-as"@);
        }
        if after.contains("-as"@) && word != "-as"@ {
            let k = choose|k: int| 0 <= k < after.len() && after[k] == "-as"@;
            assert(words[k] == "-as"@);
        }
    }
}

} // verus!
