//! Command-line words: options, the values of options, and operands.
//!
//! Some options take the next word as their value. Whether a word is such a
//! value is decided from left to right: it is one exactly when the word before
//! it is an option that takes a value and is not a value itself.

use crate::text::{opt_text, same, texts};
use vstd::prelude::*;
use vstd::slice::slice_subrange;

verus! {

/// The contents of a list of string slices.
pub open spec fn words_of(list: Seq<&str>) -> Seq<Seq<char>> {
    list.map_values(|s: &str| s@)
}

/// Whether word `i` is the value of the option before it. The options that
/// take a value are `valued`.
pub open spec fn is_value(words: Seq<Seq<char>>, valued: Seq<Seq<char>>, i: int) -> bool
    decreases i,
{
    0 < i <= words.len() && !is_value(words, valued, i - 1) && valued.contains(words[i - 1])
}

/// The value of `flag` among the first `n` words: the last one given, if any.
pub open spec fn value_within(
    words: Seq<Seq<char>>,
    valued: Seq<Seq<char>>,
    flag: Seq<char>,
    n: int,
) -> Option<Seq<char>>
    decreases n,
{
    if n <= 0 {
        None
    } else if is_value(words, valued, n - 1) && words[n - 2] == flag {
        Some(words[n - 1])
    } else {
        value_within(words, valued, flag, n - 1)
    }
}

/// The value given for `flag`. A later one overrides an earlier one.
pub open spec fn value_for(
    words: Seq<Seq<char>>,
    valued: Seq<Seq<char>>,
    flag: Seq<char>,
) -> Option<Seq<char>> {
    value_within(words, valued, flag, words.len() as int)
}

/// The value given for `flag`, or the empty text.
pub open spec fn value_or_empty(
    words: Seq<Seq<char>>,
    valued: Seq<Seq<char>>,
    flag: Seq<char>,
) -> Seq<char> {
    match value_for(words, valued, flag) {
        Some(value) => value,
        None => Seq::empty(),
    }
}

/// Whether `flag` stands at place `i`, and not as the value of an option.
pub open spec fn flag_at(
    words: Seq<Seq<char>>,
    valued: Seq<Seq<char>>,
    flag: Seq<char>,
    i: int,
) -> bool {
    0 <= i < words.len() && !is_value(words, valued, i) && words[i] == flag
}

/// Whether `flag` is given.
pub open spec fn is_given(words: Seq<Seq<char>>, valued: Seq<Seq<char>>, flag: Seq<char>) -> bool {
    exists|i: int| flag_at(words, valued, flag, i)
}

/// Whether `flag` is given and no `other` comes after it.
pub open spec fn is_given_last(
    words: Seq<Seq<char>>,
    valued: Seq<Seq<char>>,
    flag: Seq<char>,
    other: Seq<char>,
) -> bool {
    exists|i: int| #[trigger]
        flag_at(words, valued, flag, i) && forall|j: int|
            i < j ==> !#[trigger] flag_at(words, valued, other, j)
}

/// The place, from `i` on, of the `--` that ends the options, or the number of
/// words.
pub open spec fn dashes_from(words: Seq<Seq<char>>, valued: Seq<Seq<char>>, i: int) -> int
    decreases words.len() - i,
{
    if i >= words.len() {
        words.len() as int
    } else if flag_at(words, valued, "--"@, i) {
        i
    } else {
        dashes_from(words, valued, i + 1)
    }
}

/// The words before the `--` that ends the options.
pub open spec fn before_dashes(words: Seq<Seq<char>>, valued: Seq<Seq<char>>) -> Seq<Seq<char>> {
    words.take(dashes_from(words, valued, 0))
}

/// The words after the `--` that ends the options.
pub open spec fn after_dashes(words: Seq<Seq<char>>, valued: Seq<Seq<char>>) -> Seq<Seq<char>> {
    let n = dashes_from(words, valued, 0);
    if n < words.len() {
        words.skip(n + 1)
    } else {
        Seq::empty()
    }
}

/// Those of the first `n` words that are neither options nor values of options.
pub open spec fn operands_within(
    words: Seq<Seq<char>>,
    valued: Seq<Seq<char>>,
    is_option: spec_fn(Seq<char>) -> bool,
    n: int,
) -> Seq<Seq<char>>
    decreases n,
{
    if n <= 0 {
        Seq::empty()
    } else if is_value(words, valued, n - 1) || is_option(words[n - 1]) {
        operands_within(words, valued, is_option, n - 1)
    } else {
        operands_within(words, valued, is_option, n - 1).push(words[n - 1])
    }
}

/// The words that are neither options nor values of options, in order.
pub open spec fn operands(
    words: Seq<Seq<char>>,
    valued: Seq<Seq<char>>,
    is_option: spec_fn(Seq<char>) -> bool,
) -> Seq<Seq<char>> {
    operands_within(words, valued, is_option, words.len() as int)
}

/// Whether a word begins with a dash.
pub open spec fn is_dashed(word: Seq<char>) -> bool {
    word.len() > 0 && word[0] == '-'
}

/// Whether a word begins with a dash.
pub fn dashed(word: &str) -> (r: bool)
    ensures
        r == is_dashed(word@),
{
    word.unicode_len() > 0 && word.get_char(0) == '-'
}

/// Whether `word` is one of `list`.
pub fn one_of(list: &Vec<&str>, word: &str) -> (r: bool)
    ensures
        r == words_of(list@).contains(word@),
{
    let ghost words = words_of(list@);
    for i in 0..list.len()
        invariant
            words == words_of(list@),
            forall|j: int| 0 <= j < i ==> words[j] != word@,
    {
        if same(list[i], word) {
            assert(words[i as int] == word@);
            return true;
        }
    }
    false
}

/// The value given for `flag`.
pub fn option_value(args: &[String], valued: &Vec<&str>, flag: &str) -> (r: Option<String>)
    ensures
        opt_text(r) == value_for(texts(args@), words_of(valued@), flag@),
{
    let ghost words = texts(args@);
    let ghost v = words_of(valued@);
    let mut found: Option<String> = None;
    let mut value: bool = false;
    for i in 0..args.len()
        invariant
            words == texts(args@),
            v == words_of(valued@),
            value == is_value(words, v, i as int),
            opt_text(found) == value_within(words, v, flag@, i as int),
    {
        if value && same(args[i - 1].as_str(), flag) {
            found = Some(args[i].clone());
        }
        value = !value && one_of(valued, args[i].as_str());
    }
    found
}

/// The value given for `flag`, or the empty text.
pub fn option_text(args: &[String], valued: &Vec<&str>, flag: &str) -> (r: String)
    ensures
        r@ == value_or_empty(texts(args@), words_of(valued@), flag@),
{
    match option_value(args, valued, flag) {
        Some(value) => value,
        None => String::new(),
    }
}

/// Whether `flag` is given.
pub fn has_flag(args: &[String], valued: &Vec<&str>, flag: &str) -> (r: bool)
    ensures
        r == is_given(texts(args@), words_of(valued@), flag@),
{
    let ghost words = texts(args@);
    let ghost v = words_of(valued@);
    let mut value: bool = false;
    for i in 0..args.len()
        invariant
            words == texts(args@),
            v == words_of(valued@),
            value == is_value(words, v, i as int),
            forall|j: int| 0 <= j < i ==> !flag_at(words, v, flag@, j),
    {
        if !value && same(args[i].as_str(), flag) {
            assert(flag_at(words, v, flag@, i as int));
            return true;
        }
        value = !value && one_of(valued, args[i].as_str());
    }
    false
}

/// Whether `flag` is given and no `other` comes after it.
pub fn has_flag_last(args: &[String], valued: &Vec<&str>, flag: &str, other: &str) -> (r: bool)
    requires
        flag@ != other@,
    ensures
        r == is_given_last(texts(args@), words_of(valued@), flag@, other@),
{
    let ghost words = texts(args@);
    let ghost v = words_of(valued@);
    let mut value: bool = false;
    let mut last: bool = false;
    let ghost mut at: int = -1;
    for i in 0..args.len()
        invariant
            words == texts(args@),
            v == words_of(valued@),
            flag@ != other@,
            value == is_value(words, v, i as int),
            last ==> at < i && flag_at(words, v, flag@, at) && forall|j: int|
                at < j < i ==> !#[trigger] flag_at(words, v, other@, j),
            !last ==> forall|k: int|
                0 <= k < i && #[trigger] flag_at(words, v, flag@, k) ==> k < at < i && flag_at(
                    words,
                    v,
                    other@,
                    at,
                ),
    {
        if !value && same(args[i].as_str(), flag) {
            last = true;
            proof {
                at = i as int;
            }
        } else if !value && same(args[i].as_str(), other) {
            last = false;
            proof {
                at = i as int;
            }
        }
        value = !value && one_of(valued, args[i].as_str());
    }
    last
}

/// The place of the `--` that ends the options, or the number of words.
fn dashes_place(args: &[String], valued: &Vec<&str>) -> (n: usize)
    ensures
        n == dashes_from(texts(args@), words_of(valued@), 0),
        n <= args@.len(),
{
    let ghost words = texts(args@);
    let ghost v = words_of(valued@);
    let mut value: bool = false;
    for i in 0..args.len()
        invariant
            words == texts(args@),
            v == words_of(valued@),
            value == is_value(words, v, i as int),
            dashes_from(words, v, 0) == dashes_from(words, v, i as int),
    {
        if !value && same(args[i].as_str(), "--") {
            return i;
        }
        value = !value && one_of(valued, args[i].as_str());
    }
    args.len()
}

/// The words before the `--` that ends the options.
pub fn options_part<'a>(args: &'a [String], valued: &Vec<&str>) -> (r: &'a [String])
    ensures
        texts(r@) == before_dashes(texts(args@), words_of(valued@)),
{
    let n: usize = dashes_place(args, valued);
    let r = slice_subrange(args, 0, n);
    assert(texts(r@) =~= texts(args@).take(n as int));
    r
}

/// The words after the `--` that ends the options.
pub fn command_part(args: &[String], valued: &Vec<&str>) -> (r: Vec<String>)
    ensures
        texts(r@) == after_dashes(texts(args@), words_of(valued@)),
{
    let n: usize = dashes_place(args, valued);
    let mut r: Vec<String> = Vec::new();
    if n < args.len() {
        for i in n + 1..args.len()
            invariant
                n < i <= args@.len(),
                texts(r@) == texts(args@).subrange(n + 1, i as int),
        {
            let ghost before = texts(r@);
            r.push(args[i].clone());
            assert(texts(r@) =~= before.push(args@[i as int]@));
            assert(texts(r@) =~= texts(args@).subrange(n + 1, i + 1));
        }
        assert(texts(args@).subrange(n + 1, args@.len() as int) =~= texts(args@).skip(n + 1));
    }
    assert(n >= args@.len() ==> texts(r@) =~= Seq::<Seq<char>>::empty());
    r
}

/// The words that do not begin with a dash and are not values of options.
pub fn plain_words(args: &[String], valued: &Vec<&str>) -> (r: Vec<String>)
    ensures
        texts(r@) == operands(
            texts(args@),
            words_of(valued@),
            |w: Seq<char>| is_dashed(w),
        ),
{
    let ghost words = texts(args@);
    let ghost v = words_of(valued@);
    let ghost is_option = |w: Seq<char>| is_dashed(w);
    let mut value: bool = false;
    let mut r: Vec<String> = Vec::new();
    assert(texts(r@) =~= Seq::<Seq<char>>::empty());
    for i in 0..args.len()
        invariant
            words == texts(args@),
            v == words_of(valued@),
            is_option == (|w: Seq<char>| is_dashed(w)),
            value == is_value(words, v, i as int),
            texts(r@) == operands_within(words, v, is_option, i as int),
    {
        let ghost before = texts(r@);
        if !value && !dashed(args[i].as_str()) {
            r.push(args[i].clone());
            assert(texts(r@) =~= before.push(words[i as int]));
        }
        value = !value && one_of(valued, args[i].as_str());
    }
    r
}

/// The words that are none of `flags` and are not values of options.
pub fn words_except(args: &[String], valued: &Vec<&str>, flags: &Vec<&str>) -> (r: Vec<String>)
    ensures
        texts(r@) == operands(
            texts(args@),
            words_of(valued@),
            |w: Seq<char>| words_of(flags@).contains(w),
        ),
{
    let ghost words = texts(args@);
    let ghost v = words_of(valued@);
    let ghost f = words_of(flags@);
    let ghost is_option = |w: Seq<char>| words_of(flags@).contains(w);
    let mut value: bool = false;
    let mut r: Vec<String> = Vec::new();
    assert(texts(r@) =~= Seq::<Seq<char>>::empty());
    for i in 0..args.len()
        invariant
            words == texts(args@),
            v == words_of(valued@),
            is_option == (|w: Seq<char>| words_of(flags@).contains(w)),
            value == is_value(words, v, i as int),
            texts(r@) == operands_within(words, v, is_option, i as int),
    {
        let ghost before = texts(r@);
        if !value && !one_of(flags, args[i].as_str()) {
            r.push(args[i].clone());
            assert(texts(r@) =~= before.push(words[i as int]));
        }
        value = !value && one_of(valued, args[i].as_str());
    }
    r
}

} // verus!
