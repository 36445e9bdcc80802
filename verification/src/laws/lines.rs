//! How command lines are read, word by word.
//!
//! Each law says what one more word, or one more option with its value, does to
//! what was read before. Together with what an empty command line means, this
//! says what every command line means.

use crate::args::{
    after_dashes, before_dashes, dashes_from, flag_at, is_given, is_given_last, is_value, operands,
    operands_within, value_for, value_within,
};
use vstd::prelude::*;

verus! {

/// Whether the last word does not wait for a value.
pub open spec fn settled(words: Seq<Seq<char>>, valued: Seq<Seq<char>>) -> bool {
    !is_value(words, valued, words.len() as int)
}

/// Whether the last word does not wait for a value, and no `--` has ended the
/// options.
pub open spec fn in_options(words: Seq<Seq<char>>, valued: Seq<Seq<char>>) -> bool {
    settled(words, valued) && dashes_from(words, valued, 0) == words.len()
}

/// A command line is settled before its first word, after a word that takes no
/// value, and after the value of one that does. It is not after a word that
/// takes a value.
pub proof fn law_values_follow_their_options(
    words: Seq<Seq<char>>,
    valued: Seq<Seq<char>>,
    word: Seq<char>,
    value: Seq<char>,
)
    ensures
        settled(Seq::empty(), valued),
        settled(words, valued) && !valued.contains(word) ==> settled(words.push(word), valued),
        settled(words, valued) && valued.contains(word) ==> !settled(words.push(word), valued)
            && settled(words.push(word).push(value), valued),
        !settled(words, valued) ==> settled(words.push(word), valued),
{
    lemma_value_push(words, valued, word, words.len() as int);
    let more = words.push(word);
    assert(more[words.len() as int] == word);
    lemma_value_push(more, valued, value, more.len() as int);
    assert(more.push(value).len() == more.len() + 1);
}

/// The options go on until a `--` that is not the value of an option.
pub proof fn law_dashes_end_the_options(
    words: Seq<Seq<char>>,
    valued: Seq<Seq<char>>,
    word: Seq<char>,
    value: Seq<char>,
    tail: Seq<Seq<char>>,
)
    requires
        !valued.contains("--"@),
    ensures
        in_options(Seq::empty(), valued),
        in_options(words, valued) && !valued.contains(word) && word != "--"@ ==> in_options(
            words.push(word),
            valued,
        ),
        in_options(words, valued) && valued.contains(word) ==> in_options(
            words.push(word).push(value),
            valued,
        ),
        in_options(words, valued) ==> before_dashes(words, valued) == words && after_dashes(
            words,
            valued,
        ) == Seq::<Seq<char>>::empty(),
        in_options(words, valued) && valued.contains(word) ==> before_dashes(
            words.push(word),
            valued,
        ) == words.push(word) && after_dashes(words.push(word), valued) == Seq::<
            Seq<char>,
        >::empty(),
        in_options(words, valued) ==> before_dashes(words.push("--"@) + tail, valued) == words
            && after_dashes(words.push("--"@) + tail, valued) == tail,
{
    law_values_follow_their_options(words, valued, word, value);
    lemma_dashes_push(words, valued, word, 0);
    lemma_dashes_push(words.push(word), valued, value, 0);
    if in_options(words, valued) {
        assert(words.take(words.len() as int) =~= words);
        assert(words.push(word).take(words.len() as int + 1) =~= words.push(word));
        let line = words.push("--"@) + tail;
        lemma_dashes_before_tail(words, valued, tail, 0);
        assert(line.take(words.len() as int) =~= words);
        assert(line.skip(words.len() as int + 1) =~= tail);
    }
}

// ------------------------------------------------------------ general lemmas

pub proof fn lemma_value_push(
    words: Seq<Seq<char>>,
    valued: Seq<Seq<char>>,
    word: Seq<char>,
    i: int,
)
    requires
        0 <= i <= words.len(),
    ensures
        is_value(words.push(word), valued, i) == is_value(words, valued, i),
    decreases i,
{
    if i > 0 {
        lemma_value_push(words, valued, word, i - 1);
        assert(words.push(word)[i - 1] == words[i - 1]);
    }
}

proof fn lemma_value_tail(
    words: Seq<Seq<char>>,
    valued: Seq<Seq<char>>,
    tail: Seq<Seq<char>>,
    i: int,
)
    requires
        0 <= i <= words.len(),
    ensures
        is_value(words + tail, valued, i) == is_value(words, valued, i),
    decreases i,
{
    if i > 0 {
        lemma_value_tail(words, valued, tail, i - 1);
        assert((words + tail)[i - 1] == words[i - 1]);
    }
}

proof fn lemma_within_push(
    words: Seq<Seq<char>>,
    valued: Seq<Seq<char>>,
    word: Seq<char>,
    flag: Seq<char>,
    n: int,
)
    requires
        n <= words.len(),
    ensures
        value_within(words.push(word), valued, flag, n) == value_within(words, valued, flag, n),
    decreases n,
{
    if n > 0 {
        lemma_within_push(words, valued, word, flag, n - 1);
        lemma_value_push(words, valued, word, n - 1);
        assert(words.push(word)[n - 1] == words[n - 1]);
        if n > 1 {
            assert(words.push(word)[n - 2] == words[n - 2]);
        } else {
            assert(!is_value(words, valued, 0));
        }
    }
}

/// What one more word does to the value of an option.
pub proof fn lemma_value_for_push(
    words: Seq<Seq<char>>,
    valued: Seq<Seq<char>>,
    word: Seq<char>,
    flag: Seq<char>,
)
    ensures
        value_for(words.push(word), valued, flag) == (if !settled(words, valued) && words.last()
            == flag {
            Some(word)
        } else {
            value_for(words, valued, flag)
        }),
{
    lemma_within_push(words, valued, word, flag, words.len() as int);
    lemma_value_push(words, valued, word, words.len() as int);
    if words.len() > 0 {
        assert(words.push(word)[words.len() - 1] == words.last());
    }
}

/// What one more option with its value does to the value of an option.
pub proof fn lemma_value_for_pair(
    words: Seq<Seq<char>>,
    valued: Seq<Seq<char>>,
    option: Seq<char>,
    value: Seq<char>,
    flag: Seq<char>,
)
    requires
        settled(words, valued),
        valued.contains(option),
    ensures
        value_for(words.push(option), valued, flag) == value_for(words, valued, flag),
        value_for(words.push(option).push(value), valued, flag) == (if option == flag {
            Some(value)
        } else {
            value_for(words, valued, flag)
        }),
{
    law_values_follow_their_options(words, valued, option, value);
    lemma_value_for_push(words, valued, option, flag);
    lemma_value_for_push(words.push(option), valued, value, flag);
    assert(words.push(option).last() == option);
}

pub proof fn lemma_flag_at_push(
    words: Seq<Seq<char>>,
    valued: Seq<Seq<char>>,
    word: Seq<char>,
    flag: Seq<char>,
    i: int,
)
    ensures
        flag_at(words.push(word), valued, flag, i) == (if i == words.len() {
            settled(words, valued) && word == flag
        } else {
            flag_at(words, valued, flag, i)
        }),
{
    if 0 <= i <= words.len() {
        lemma_value_push(words, valued, word, i);
        if i < words.len() {
            assert(words.push(word)[i] == words[i]);
        }
    }
}

/// What one more word does to whether a flag is given.
pub proof fn lemma_given_push(
    words: Seq<Seq<char>>,
    valued: Seq<Seq<char>>,
    word: Seq<char>,
    flag: Seq<char>,
)
    ensures
        is_given(words.push(word), valued, flag) == (is_given(words, valued, flag) || (settled(
            words,
            valued,
        ) && word == flag)),
{
    let more = words.push(word);
    if is_given(words, valued, flag) {
        let i = choose|i: int| flag_at(words, valued, flag, i);
        lemma_flag_at_push(words, valued, word, flag, i);
        assert(flag_at(more, valued, flag, i));
    }
    if settled(words, valued) && word == flag {
        lemma_flag_at_push(words, valued, word, flag, words.len() as int);
        assert(flag_at(more, valued, flag, words.len() as int));
    }
    if is_given(more, valued, flag) {
        let i = choose|i: int| flag_at(more, valued, flag, i);
        lemma_flag_at_push(words, valued, word, flag, i);
    }
}

/// What one more word does to which of two flags was given last.
pub proof fn lemma_given_last_push(
    words: Seq<Seq<char>>,
    valued: Seq<Seq<char>>,
    word: Seq<char>,
    flag: Seq<char>,
    other: Seq<char>,
)
    requires
        flag != other,
    ensures
        is_given_last(words.push(word), valued, flag, other) == (if settled(words, valued) && word
            == flag {
            true
        } else if settled(words, valued) && word == other {
            false
        } else {
            is_given_last(words, valued, flag, other)
        }),
{
    let more = words.push(word);
    let n = words.len() as int;
    assert forall|j: int| #[trigger]
        flag_at(more, valued, other, j) == (if j == n {
            settled(words, valued) && word == other
        } else {
            flag_at(words, valued, other, j)
        }) by {
        lemma_flag_at_push(words, valued, word, other, j);
    }
    assert forall|j: int| #[trigger]
        flag_at(more, valued, flag, j) == (if j == n {
            settled(words, valued) && word == flag
        } else {
            flag_at(words, valued, flag, j)
        }) by {
        lemma_flag_at_push(words, valued, word, flag, j);
    }
    if settled(words, valued) && word == flag {
        assert(flag_at(more, valued, flag, n));
        assert forall|j: int| n < j implies !#[trigger] flag_at(more, valued, other, j) by {}
    } else if settled(words, valued) && word == other {
        assert(flag_at(more, valued, other, n));
        if is_given_last(more, valued, flag, other) {
            let i = choose|i: int| #[trigger]
                flag_at(more, valued, flag, i) && forall|j: int|
                    i < j ==> !#[trigger] flag_at(more, valued, other, j);
            assert(i < n);
        }
    } else {
        if is_given_last(words, valued, flag, other) {
            let i = choose|i: int| #[trigger]
                flag_at(words, valued, flag, i) && forall|j: int|
                    i < j ==> !#[trigger] flag_at(words, valued, other, j);
            assert(flag_at(more, valued, flag, i));
            assert forall|j: int| i < j implies !#[trigger] flag_at(more, valued, other, j) by {
                if j != n {
                    assert(!flag_at(words, valued, other, j));
                }
            }
        }
        if is_given_last(more, valued, flag, other) {
            let i = choose|i: int| #[trigger]
                flag_at(more, valued, flag, i) && forall|j: int|
                    i < j ==> !#[trigger] flag_at(more, valued, other, j);
            assert(flag_at(words, valued, flag, i));
            assert forall|j: int| i < j implies !#[trigger] flag_at(words, valued, other, j) by {
                if j != n {
                    assert(!flag_at(more, valued, other, j));
                }
            }
        }
    }
}

proof fn lemma_operands_within_push(
    words: Seq<Seq<char>>,
    valued: Seq<Seq<char>>,
    word: Seq<char>,
    is_option: spec_fn(Seq<char>) -> bool,
    n: int,
)
    requires
        n <= words.len(),
    ensures
        operands_within(words.push(word), valued, is_option, n) == operands_within(
            words,
            valued,
            is_option,
            n,
        ),
    decreases n,
{
    if n > 0 {
        lemma_operands_within_push(words, valued, word, is_option, n - 1);
        lemma_value_push(words, valued, word, n - 1);
        assert(words.push(word)[n - 1] == words[n - 1]);
    }
}

/// What one more word does to the operands.
pub proof fn lemma_operands_push(
    words: Seq<Seq<char>>,
    valued: Seq<Seq<char>>,
    word: Seq<char>,
    is_option: spec_fn(Seq<char>) -> bool,
)
    ensures
        operands(words.push(word), valued, is_option) == (if !settled(words, valued) || is_option(
            word,
        ) {
            operands(words, valued, is_option)
        } else {
            operands(words, valued, is_option).push(word)
        }),
{
    lemma_operands_within_push(words, valued, word, is_option, words.len() as int);
    lemma_value_push(words, valued, word, words.len() as int);
}

proof fn lemma_dashes_push(
    words: Seq<Seq<char>>,
    valued: Seq<Seq<char>>,
    word: Seq<char>,
    i: int,
)
    requires
        0 <= i <= words.len(),
    ensures
        i <= dashes_from(words, valued, i) <= words.len(),
        dashes_from(words.push(word), valued, i) == (if dashes_from(words, valued, i)
            < words.len() {
            dashes_from(words, valued, i)
        } else if settled(words, valued) && word == "--"@ {
            words.len() as int
        } else {
            words.len() as int + 1
        }),
    decreases words.len() - i,
{
    lemma_flag_at_push(words, valued, word, "--"@, i);
    if i < words.len() {
        lemma_dashes_push(words, valued, word, i + 1);
    } else {
        assert(dashes_from(words.push(word), valued, i + 1) == words.len() + 1);
    }
}

proof fn lemma_dashes_before_tail(
    words: Seq<Seq<char>>,
    valued: Seq<Seq<char>>,
    tail: Seq<Seq<char>>,
    i: int,
)
    requires
        0 <= i <= words.len(),
        settled(words, valued),
        dashes_from(words, valued, i) == words.len(),
    ensures
        dashes_from(words.push("--"@) + tail, valued, i) == words.len(),
    decreases words.len() - i,
{
    let line = words.push("--"@) + tail;
    assert(line =~= words + (seq!["--"@] + tail));
    lemma_value_tail(words, valued, seq!["--"@] + tail, i);
    if i < words.len() {
        assert(line[i] == words[i]);
        lemma_dashes_before_tail(words, valued, tail, i + 1);
    } else {
        assert(line[i] == "--"@);
    }
}

} // verus!
