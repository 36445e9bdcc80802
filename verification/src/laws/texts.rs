//! What the operations on texts and numbers do.

use crate::format::formatted;
use crate::keys::{key_text, send_text};
use crate::laws::words::{lemma_plain_text_stays, no_hash};
use crate::text::{
    after_prefix, decimal, is_white, joined, lemma_digits_value_grows, lemma_replaced_absent, occurs,
    parsed_u64, replaced, trimmed,
};
use vstd::prelude::*;

verus! {

// ------------------------------------------------------------------- replacing

/// A text in which the pattern does not stand at any place stays as it is.
pub proof fn law_replacing_what_is_not_there(s: Seq<char>, pat: Seq<char>, with: Seq<char>)
    requires
        forall|i: int|
            0 <= i <= s.len() - pat.len() ==> #[trigger] s.subrange(i, i + pat.len()) != pat,
    ensures
        replaced(s, pat, with) == s,
{
    assert(!occurs(s, pat));
    lemma_replaced_absent(s, pat, with);
}

/// What stands before the first place of the pattern stays, the pattern gives
/// way, and what follows it is treated in the same way.
pub proof fn law_replacing_from_the_left(
    before: Seq<char>,
    pat: Seq<char>,
    after: Seq<char>,
    with: Seq<char>,
)
    requires
        pat.len() > 0,
        forall|i: int|
            0 <= i < before.len() ==> #[trigger] (before + pat + after).subrange(i, i + pat.len())
                != pat,
    ensures
        replaced(before + pat + after, pat, with) == before + with + replaced(after, pat, with),
    decreases before.len(),
{
    let s = before + pat + after;
    if before.len() == 0 {
        assert(s.take(pat.len() as int) =~= pat);
        assert(s.skip(pat.len() as int) =~= after);
        assert(before + with =~= with);
    } else {
        let rest = before.skip(1);
        assert(s.skip(1) =~= rest + pat + after);
        assert forall|i: int| 0 <= i < rest.len() implies #[trigger] (rest + pat + after).subrange(
            i,
            i + pat.len(),
        ) != pat by {
            assert((rest + pat + after).subrange(i, i + pat.len()) =~= s.subrange(
                i + 1,
                i + 1 + pat.len(),
            ));
        }
        law_replacing_from_the_left(rest, pat, after, with);
        assert(s.take(pat.len() as int) =~= s.subrange(0, 0int + pat.len()));
        assert(s[0] == before[0]);
        assert(seq![s[0]] + (rest + with + replaced(after, pat, with)) =~= before + with + replaced(
            after,
            pat,
            with,
        ));
    }
}

// --------------------------------------------------------------------- joining

/// Nothing joins to nothing, one text to itself, and two lists to what each
/// joins to with the separator between.
pub proof fn law_joining(
    one: Seq<char>,
    first: Seq<Seq<char>>,
    second: Seq<Seq<char>>,
    sep: Seq<char>,
)
    requires
        first.len() > 0,
        second.len() > 0,
    ensures
        joined(Seq::empty(), sep) == Seq::<char>::empty(),
        joined(seq![one], sep) == one,
        joined(first + second, sep) == joined(first, sep) + sep + joined(second, sep),
    decreases second.len(),
{
    let all = first + second;
    assert(all.last() == second.last());
    if second.len() == 1 {
        assert(all.drop_last() =~= first);
    } else {
        law_joining(one, first, second.drop_last(), sep);
        assert(all.drop_last() =~= first + second.drop_last());
        assert(joined(all, sep) =~= joined(first, sep) + sep + joined(second, sep));
    }
}

// -------------------------------------------------------------------- trimming

/// Trimming takes the white space off both ends and nothing else.
pub proof fn law_trimming(before: Seq<char>, middle: Seq<char>, after: Seq<char>)
    requires
        forall|i: int| 0 <= i < before.len() ==> is_white(#[trigger] before[i]),
        forall|i: int| 0 <= i < after.len() ==> is_white(#[trigger] after[i]),
        middle.len() > 0 ==> !is_white(middle[0]) && !is_white(middle.last()),
    ensures
        trimmed(before + middle + after) == middle,
    decreases before.len() + after.len(),
{
    let s = before + middle + after;
    if before.len() > 0 {
        let rest = before.skip(1);
        assert(s.skip(1) =~= rest + middle + after);
        assert forall|i: int| 0 <= i < rest.len() implies is_white(#[trigger] rest[i]) by {
            assert(rest[i] == before[i + 1]);
        }
        assert(s[0] == before[0]);
        law_trimming(rest, middle, after);
    } else if after.len() > 0 {
        if middle.len() > 0 {
            let rest = after.drop_last();
            assert(s[0] == middle[0]);
            assert(s.last() == after.last());
            assert(is_white(after[after.len() - 1]));
            assert(s.drop_last() =~= before + middle + rest);
            law_trimming(before, middle, rest);
        } else {
            let rest = after.skip(1);
            assert(s[0] == after[0]);
            assert(s.skip(1) =~= before + middle + rest);
            assert forall|i: int| 0 <= i < rest.len() implies is_white(#[trigger] rest[i]) by {
                assert(rest[i] == after[i + 1]);
            }
            law_trimming(before, middle, rest);
        }
    } else {
        assert(s =~= middle);
    }
}

/// The characters that are white space.
pub proof fn law_white_space(c: char)
    ensures
        is_white(c) <==> (c == '\t' || c == '\n' || c == '\u{b}' || c == '\u{c}' || c == '\r' || c
            == ' ' || c == '\u{85}' || c == '\u{a0}' || c == '\u{1680}' || '\u{2000}' <= c
            <= '\u{200a}' || c == '\u{2028}' || c == '\u{2029}' || c == '\u{202f}' || c
            == '\u{205f}' || c == '\u{3000}'),
{
}

// --------------------------------------------------------------------- numbers

/// The decimal form of a number is that of its tens, if there are any, and then
/// its last digit.
pub proof fn law_decimal_digit_by_digit(tens: nat, d: nat)
    requires
        d < 10,
    ensures
        decimal(10 * tens + d) == (if tens == 0 {
            Seq::<char>::empty()
        } else {
            decimal(tens)
        }).push("0123456789"@[d as int]),
{
    reveal_strlit("0123456789");
    let n = 10 * tens + d;
    assert(n / 10 == tens && n % 10 == d);
    assert(decimal(n).last() == "0123456789"@[d as int]);
    assert(decimal(n) =~= (if tens == 0 {
        Seq::<char>::empty()
    } else {
        decimal(tens)
    }).push("0123456789"@[d as int]));
}

/// A digit reads as its value. One more digit makes a number ten times as large
/// and adds the digit, as long as the result fits.
pub proof fn law_reading_digit_by_digit(s: Seq<char>, d: nat)
    requires
        d < 10,
        s.len() > 0,
        forall|i: int| 0 <= i < s.len() ==> '0' <= #[trigger] s[i] <= '9',
    ensures
        parsed_u64(seq!["0123456789"@[d as int]]) == Some(d as u64),
        parsed_u64(s.push("0123456789"@[d as int])) == (match parsed_u64(s) {
            Some(v) => if 10 * v + d <= u64::MAX {
                Some((10 * v + d) as u64)
            } else {
                None
            },
            None => None,
        }),
{
    reveal_strlit("0123456789");
    reveal_with_fuel(crate::text::digits_value, 2);
    let c = "0123456789"@[d as int];
    let one = seq![c];
    assert(one.drop_last() =~= Seq::<char>::empty());
    assert(one.last() == c);
    let more = s.push(c);
    assert(more.drop_last() =~= s);
    assert(more.last() == c);
    assert(more[0] == s[0]);
    assert(crate::text::all_digits(s));
    assert(crate::text::all_digits(more));
    assert(more.take(s.len() as int) =~= s);
    lemma_digits_value_grows(more, s.len() as int);
}

/// One plus sign may stand before the digits. Nothing else may stand anywhere,
/// and there has to be a digit.
pub proof fn law_reading_signs(s: Seq<char>)
    ensures
        s.len() > 0 && s[0] != '+' ==> parsed_u64(seq!['+'] + s) == parsed_u64(s),
        s.len() == 0 || s == seq!['+'] ==> parsed_u64(s) is None,
        (exists|i: int| 0 <= i < s.len() && !('0' <= s[i] <= '9') && (i > 0 || #[trigger] s[i] != '+'))
            ==> parsed_u64(s) is None,
{
    assert((seq!['+'] + s).skip(1) =~= s);
    if s == seq!['+'] {
        assert(s.skip(1).len() == 0);
    }
    if exists|i: int| 0 <= i < s.len() && !('0' <= s[i] <= '9') && (i > 0 || #[trigger] s[i] != '+') {
        let i = choose|i: int|
            0 <= i < s.len() && !('0' <= s[i] <= '9') && (i > 0 || #[trigger] s[i] != '+');
        if s[0] == '+' {
            assert(s.skip(1)[i - 1] == s[i]);
        }
    }
}

/// A text that begins with a prefix is the prefix and what follows it.
pub proof fn law_prefixes(prefix: Seq<char>, rest: Seq<char>, s: Seq<char>)
    ensures
        after_prefix(prefix + rest, prefix) == Some(rest),
        after_prefix(s, prefix) matches Some(r) ==> s == prefix + r,
{
    assert(prefix.is_prefix_of(prefix + rest)) by {
        assert((prefix + rest).subrange(0, prefix.len() as int) =~= prefix);
    }
    assert((prefix + rest).skip(prefix.len() as int) =~= rest);
    if prefix.is_prefix_of(s) {
        assert(s =~= prefix + s.skip(prefix.len() as int)) by {
            assert(s.subrange(0, prefix.len() as int) =~= prefix);
        }
    }
}

// ------------------------------------------------------------------------ keys

/// The named keys stand for one character each.
pub proof fn law_named_keys()
    ensures
        key_text("Enter"@) == seq!['\r'],
        key_text("Tab"@) == seq!['\t'],
        key_text("Space"@) == seq![' '],
{
    reveal_strlit("Enter");
    reveal_strlit("Tab");
    reveal_strlit("Space");
    assert("Enter"@.len() == 5 && "Tab"@.len() == 3 && "Space"@.len() == 5);
    assert("Enter"@[0] != "Space"@[0]);
}

/// `C-` and a letter stands for the control character of the letter, in either
/// case.
pub proof fn law_control_keys(letter: int)
    requires
        1 <= letter <= 26,
    ensures
        key_text(seq!['C', '-', ('a' as int + letter - 1) as char]) == seq![letter as char],
        key_text(seq!['C', '-', ('A' as int + letter - 1) as char]) == seq![letter as char],
{
    reveal_strlit("Enter");
    reveal_strlit("Tab");
    reveal_strlit("Space");
    let lower = seq!['C', '-', ('a' as int + letter - 1) as char];
    let upper = seq!['C', '-', ('A' as int + letter - 1) as char];
    assert("Tab"@[0] == 'T' && lower[0] == 'C' && upper[0] == 'C');
    assert("Enter"@.len() == 5 && "Space"@.len() == 5);
}

/// Any other token stands for itself.
pub proof fn law_other_tokens_are_typed(token: Seq<char>)
    requires
        token != "Enter"@ && token != "Tab"@ && token != "Space"@,
        token.len() != 3 || token[0] != 'C' || token[1] != '-' || !('a' <= token[2] <= 'z' || 'A'
            <= token[2] <= 'Z'),
    ensures
        key_text(token) == token,
{
}

/// Plain text is typed as it is, with a space between the tokens. Otherwise one
/// token gives what it stands for, and no token gives nothing.
pub proof fn law_typed_text(tokens: Seq<Seq<char>>, token: Seq<char>)
    ensures
        send_text(tokens, true) == joined(tokens, " "@),
        send_text(seq![token], false) == key_text(token),
        send_text(Seq::empty(), false) == Seq::<char>::empty(),
{
    reveal_strlit(" ");
    assert(" "@ =~= seq![' ']);
    assert(seq![token].map_values(|t: Seq<char>| key_text(t)) =~= seq![key_text(token)]);
}

// --------------------------------------------------------------------- formats

/// The placeholders are filled in one kind after the other.
pub proof fn law_placeholders_in_turn(fmt: Seq<char>, pane_id: Seq<char>, window_id: Seq<char>)
    ensures
        ({
            let panes = replaced(fmt, "#{pane_id}"@, pane_id);
            let windows = replaced(panes, "#{window_id}"@, window_id);
            let types = replaced(windows, "#{client_termtype}"@, "tmux-256color"@);
            formatted(fmt, Some(pane_id), Some(window_id)) == replaced(
                types,
                "#{client_control_mode}"@,
                "0"@,
            )
        }),
        formatted(fmt, None, Some(window_id)) == formatted(
            fmt,
            Some("#{pane_id}"@),
            Some(window_id),
        ),
        formatted(fmt, Some(pane_id), None) == formatted(
            fmt,
            Some(pane_id),
            Some("#{window_id}"@),
        ),
{
    reveal_strlit("#{pane_id}");
    reveal_strlit("#{window_id}");
    lemma_replaced_by_itself(fmt, "#{pane_id}"@);
    lemma_replaced_by_itself(replaced(fmt, "#{pane_id}"@, pane_id), "#{window_id}"@);
}

proof fn lemma_replaced_by_itself(s: Seq<char>, pat: Seq<char>)
    ensures
        replaced(s, pat, pat) == s,
    decreases s.len(),
{
    if pat.len() > 0 && s.len() >= pat.len() {
        if s.take(pat.len() as int) == pat {
            lemma_replaced_by_itself(s.skip(pat.len() as int), pat);
            assert(s =~= s.take(pat.len() as int) + s.skip(pat.len() as int));
        } else {
            lemma_replaced_by_itself(s.skip(1), pat);
            assert(s =~= seq![s[0]] + s.skip(1));
        }
    }
}

/// Whether two texts differ at some place that both have.
pub open spec fn conflict(a: Seq<char>, b: Seq<char>) -> bool {
    exists|k: int| 0 <= k < a.len() && k < b.len() && #[trigger] a[k] != b[k]
}

proof fn lemma_other_token_stays(
    token: Seq<char>,
    s: Seq<char>,
    pat: Seq<char>,
    with: Seq<char>,
)
    requires
        token.len() > 0,
        pat.len() > 0,
        pat[0] == '#',
        no_hash(token.skip(1)),
        conflict(token, pat),
    ensures
        replaced(token + s, pat, with) == token + replaced(s, pat, with),
{
    let all = token + s;
    let tail = token.skip(1);
    assert(all.skip(1) =~= tail + s);
    lemma_plain_text_stays(tail, s, pat, with);
    if all.len() >= pat.len() {
        let k = choose|k: int| 0 <= k < token.len() && k < pat.len() && #[trigger] token[k] != pat[k];
        assert(all.take(pat.len() as int)[k] == token[k]);
        assert(all[0] == token[0]);
        assert(seq![all[0]] + (tail + replaced(s, pat, with)) =~= token + replaced(s, pat, with));
    } else {
        assert(replaced(s, pat, with) == s);
    }
}

/// The start of a format is filled in by itself: plain text stays, and each
/// placeholder gives its value.
pub proof fn law_formats_piece_by_piece(
    plain: Seq<char>,
    rest: Seq<char>,
    pane_id: Seq<char>,
    window_id: Seq<char>,
)
    requires
        no_hash(plain),
        no_hash(pane_id),
        no_hash(window_id),
    ensures
        formatted(plain + rest, Some(pane_id), Some(window_id)) == plain + formatted(
            rest,
            Some(pane_id),
            Some(window_id),
        ),
        formatted("#{pane_id}"@ + rest, Some(pane_id), Some(window_id)) == pane_id + formatted(
            rest,
            Some(pane_id),
            Some(window_id),
        ),
        formatted("#{window_id}"@ + rest, Some(pane_id), Some(window_id)) == window_id + formatted(
            rest,
            Some(pane_id),
            Some(window_id),
        ),
        formatted("#{client_termtype}"@ + rest, Some(pane_id), Some(window_id))
            == "tmux-256color"@ + formatted(rest, Some(pane_id), Some(window_id)),
        formatted("#{client_control_mode}"@ + rest, Some(pane_id), Some(window_id)) == "0"@
            + formatted(rest, Some(pane_id), Some(window_id)),
{
    let p = "#{pane_id}"@;
    let w = "#{window_id}"@;
    let t = "#{client_termtype}"@;
    let m = "#{client_control_mode}"@;
    let term = "tmux-256color"@;
    let zero = "0"@;
    reveal_strlit("#{pane_id}");
    reveal_strlit("#{window_id}");
    reveal_strlit("#{client_termtype}");
    reveal_strlit("#{client_control_mode}");
    reveal_strlit("tmux-256color");
    reveal_strlit("0");
    assert(no_hash(p.skip(1)) && no_hash(w.skip(1)) && no_hash(t.skip(1)) && no_hash(m.skip(1)));
    assert(no_hash(term) && no_hash(zero));
    assert(p[2] != w[2] && p[2] != t[2] && p[2] != m[2] && w[2] != p[2] && t[2] != p[2] && m[2]
        != p[2]);
    assert(w[2] != t[2] && w[2] != m[2] && t[2] != w[2] && m[2] != w[2]);
    assert(t[9] != m[9] && m[9] != t[9]);
    let r1 = replaced(rest, p, pane_id);
    let r2 = replaced(r1, w, window_id);
    let r3 = replaced(r2, t, term);
    let r4 = replaced(r3, m, zero);
    assert(formatted(rest, Some(pane_id), Some(window_id)) == r4);
    // plain text
    lemma_plain_text_stays(plain, rest, p, pane_id);
    lemma_plain_text_stays(plain, r1, w, window_id);
    lemma_plain_text_stays(plain, r2, t, term);
    lemma_plain_text_stays(plain, r3, m, zero);
    // the pane
    lemma_token_first(rest, p, pane_id);
    lemma_plain_text_stays(pane_id, r1, w, window_id);
    lemma_plain_text_stays(pane_id, r2, t, term);
    lemma_plain_text_stays(pane_id, r3, m, zero);
    // the window
    lemma_other_token_stays(w, rest, p, pane_id);
    lemma_token_first(r1, w, window_id);
    lemma_plain_text_stays(window_id, r2, t, term);
    lemma_plain_text_stays(window_id, r3, m, zero);
    // the terminal
    lemma_other_token_stays(t, rest, p, pane_id);
    lemma_other_token_stays(t, r1, w, window_id);
    lemma_token_first(r2, t, term);
    lemma_plain_text_stays(term, r3, m, zero);
    // the control mode
    lemma_other_token_stays(m, rest, p, pane_id);
    lemma_other_token_stays(m, r1, w, window_id);
    lemma_other_token_stays(m, r2, t, term);
    lemma_token_first(r3, m, zero);
}

proof fn lemma_token_first(rest: Seq<char>, pat: Seq<char>, with: Seq<char>)
    requires
        pat.len() > 0,
    ensures
        replaced(pat + rest, pat, with) == with + replaced(rest, pat, with),
{
    assert((pat + rest).take(pat.len() as int) =~= pat);
    assert((pat + rest).skip(pat.len() as int) =~= rest);
}

} // verus!
