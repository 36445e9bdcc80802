//! Texts as sequences of characters: comparison, search and replace, joining,
//! trimming, and decimal numbers.

use vstd::prelude::*;

verus! {

/// `String::push` appends one character at the end of the string.
pub assume_specification[ String::push ](s: &mut String, c: char)
    ensures
        final(s)@ == old(s)@.push(c),
;

/// The contents of a list of strings.
pub open spec fn texts(list: Seq<String>) -> Seq<Seq<char>> {
    list.map_values(|s: String| s@)
}

/// The contents of an optional string.
pub open spec fn opt_text(s: Option<String>) -> Option<Seq<char>> {
    match s {
        Some(t) => Some(t@),
        None => None,
    }
}

// ---------------------------------------------------------------- characters

/// Whether two texts hold the same characters.
pub fn same(a: &str, b: &str) -> (r: bool)
    ensures
        r == (a@ == b@),
{
    a.to_owned() == b.to_owned()
}

/// The characters of a text.
pub fn chars_of(s: &str) -> (v: Vec<char>)
    ensures
        v@ == s@,
{
    let mut v: Vec<char> = Vec::new();
    for c in it: s.chars()
        invariant
            v@ == it.seq().take(it.index() as int),
            it.seq() == s@,
    {
        v.push(c);
    }
    v
}

/// Appends the characters `v[from..to]` to `out`.
pub(crate) fn push_range(out: &mut String, v: &Vec<char>, from: usize, to: usize)
    requires
        from <= to <= v@.len(),
    ensures
        final(out)@ == old(out)@ + v@.subrange(from as int, to as int),
{
    let mut i: usize = from;
    while i < to
        invariant
            from <= i <= to <= v@.len(),
            out@ == old(out)@ + v@.subrange(from as int, i as int),
        decreases to - i,
    {
        out.push(v[i]);
        proof {
            assert(v@.subrange(from as int, i + 1) =~= v@.subrange(from as int, i as int).push(
                v@[i as int],
            ));
        }
        i += 1;
    }
}

/// Whether `s` begins with `prefix`.
pub fn has_prefix(s: &str, prefix: &str) -> (r: bool)
    ensures
        r == prefix@.is_prefix_of(s@),
{
    let n: usize = prefix.unicode_len();
    if s.unicode_len() < n {
        return false;
    }
    let r = same(s.substring_char(0, n), prefix);
    proof {
        if prefix@.is_prefix_of(s@) {
            assert(s@.subrange(0, n as int) =~= prefix@);
        }
    }
    r
}

/// What follows `prefix` in a text that begins with it.
pub open spec fn after_prefix(s: Seq<char>, prefix: Seq<char>) -> Option<Seq<char>> {
    if prefix.is_prefix_of(s) {
        Some(s.skip(prefix.len() as int))
    } else {
        None
    }
}

/// What follows `prefix` in a text that begins with it.
pub fn strip_prefix(s: &str, prefix: &str) -> (r: Option<String>)
    ensures
        opt_text(r) == after_prefix(s@, prefix@),
{
    if has_prefix(s, prefix) {
        let rest = s.substring_char(prefix.unicode_len(), s.unicode_len());
        assert(rest@ =~= s@.skip(prefix@.len() as int));
        Some(rest.to_owned())
    } else {
        None
    }
}

// ------------------------------------------------------------------- replace

/// `s` with every occurrence of `pat` replaced, taken from left to right and
/// without overlaps.
pub open spec fn replaced(s: Seq<char>, pat: Seq<char>, with: Seq<char>) -> Seq<char>
    decreases s.len(),
{
    if pat.len() == 0 || s.len() < pat.len() {
        s
    } else if s.take(pat.len() as int) == pat {
        with + replaced(s.skip(pat.len() as int), pat, with)
    } else {
        seq![s[0]] + replaced(s.skip(1), pat, with)
    }
}

/// Whether `pat` occurs in `s`.
pub open spec fn occurs(s: Seq<char>, pat: Seq<char>) -> bool {
    exists|i: int|
        0 <= i <= s.len() - pat.len() && #[trigger] s.subrange(i, i + pat.len()) == pat
}

/// Replaces every occurrence of `pat`, from left to right.
pub fn replace_all(s: &str, pat: &str, with: &str) -> (r: String)
    requires
        pat@.len() > 0,
    ensures
        r@ == replaced(s@, pat@, with@),
{
    let v = chars_of(s);
    let p = chars_of(pat);
    let n: usize = v.len();
    let m: usize = p.len();
    let mut out: String = String::new();
    let mut i: usize = 0;
    assert(s@.skip(0) =~= s@);
    while i < n
        invariant
            v@ == s@,
            p@ == pat@,
            n == v@.len(),
            m == p@.len(),
            m > 0,
            i <= n,
            out@ + replaced(s@.skip(i as int), pat@, with@) == replaced(s@, pat@, with@),
        decreases n - i,
    {
        let mut hit = false;
        if n - i >= m {
            let mut j: usize = 0;
            while j < m && v[i + j] == p[j]
                invariant
                    n == v@.len(),
                    m == p@.len(),
                    i <= n,
                    n - i >= m,
                    j <= m,
                    forall|k: int| 0 <= k < j ==> #[trigger] p@[k] == v@[i + k],
                decreases m - j,
            {
                j += 1;
            }
            hit = j == m;
            proof {
                let rest = s@.skip(i as int);
                if hit {
                    assert(rest.take(m as int) =~= pat@);
                } else {
                    assert(rest.take(m as int)[j as int] != pat@[j as int]);
                }
            }
        }
        let ghost rest = s@.skip(i as int);
        if hit {
            out.append(with);
            proof {
                assert(rest.skip(m as int) =~= s@.skip(i + m));
            }
            i += m;
        } else {
            out.push(v[i]);
            proof {
                assert(rest.skip(1) =~= s@.skip(i + 1));
                if n - i < m {
                    let tail = s@.skip(i + 1);
                    assert(replaced(tail, pat@, with@) == tail);
                    assert(rest =~= seq![rest[0]] + tail);
                }
            }
            i += 1;
        }
        proof {
            assert(out@ + replaced(s@.skip(i as int), pat@, with@) =~= replaced(s@, pat@, with@));
        }
    }
    assert(s@.skip(n as int).len() == 0);
    assert(out@ =~= out@ + replaced(s@.skip(n as int), pat@, with@));
    out
}

/// Replacing a pattern that does not occur changes nothing.
pub proof fn lemma_replaced_absent(s: Seq<char>, pat: Seq<char>, with: Seq<char>)
    requires
        !occurs(s, pat),
    ensures
        replaced(s, pat, with) == s,
    decreases s.len(),
{
    if pat.len() != 0 && s.len() >= pat.len() {
        assert(s.take(pat.len() as int) != pat) by {
            assert(s.subrange(0, 0int + pat.len()) =~= s.take(pat.len() as int));
        }
        let tail = s.skip(1);
        assert(!occurs(tail, pat)) by {
            if occurs(tail, pat) {
                let i = choose|i: int|
                    0 <= i <= tail.len() - pat.len() && #[trigger] tail.subrange(i, i + pat.len())
                        == pat;
                assert(s.subrange(i + 1, i + 1 + pat.len()) =~= tail.subrange(i, i + pat.len()));
            }
        }
        lemma_replaced_absent(tail, pat, with);
        assert(seq![s[0]] + tail =~= s);
    }
}

// --------------------------------------------------------------------- join

/// The texts of `list` one after the other, with `sep` between them.
pub open spec fn joined(list: Seq<Seq<char>>, sep: Seq<char>) -> Seq<char>
    decreases list.len(),
{
    if list.len() == 0 {
        Seq::empty()
    } else if list.len() == 1 {
        list[0]
    } else {
        joined(list.drop_last(), sep) + sep + list.last()
    }
}

/// Joins the texts of `list` with `sep` between them.
pub fn join(list: &[String], sep: &str) -> (r: String)
    ensures
        r@ == joined(texts(list@), sep@),
{
    let mut out: String = String::new();
    let ghost all = texts(list@);
    for i in 0..list.len()
        invariant
            all == texts(list@),
            out@ == joined(all.take(i as int), sep@),
    {
        proof {
            assert(all.take(i + 1).drop_last() =~= all.take(i as int));
        }
        if i > 0 {
            out.append(sep);
        }
        out.append(list[i].as_str());
        proof {
            if i == 0 {
                assert(out@ =~= all[0]);
            }
        }
    }
    assert(all.take(list@.len() as int) =~= all);
    out
}

// --------------------------------------------------------------------- trim

/// Whether Unicode counts `c` as white space.
pub open spec fn is_white(c: char) -> bool {
    let n = c as u32;
    ||| 0x09 <= n <= 0x0d
    ||| n == 0x20
    ||| n == 0x85
    ||| n == 0xa0
    ||| n == 0x1680
    ||| 0x2000 <= n <= 0x200a
    ||| n == 0x2028
    ||| n == 0x2029
    ||| n == 0x202f
    ||| n == 0x205f
    ||| n == 0x3000
}

fn white(c: char) -> (r: bool)
    ensures
        r == is_white(c),
{
    let n: u32 = c as u32;
    (0x09 <= n && n <= 0x0d) || n == 0x20 || n == 0x85 || n == 0xa0 || n == 0x1680 || (0x2000 <= n
        && n <= 0x200a) || n == 0x2028 || n == 0x2029 || n == 0x202f || n == 0x205f || n == 0x3000
}

/// `s` without the white space at its two ends.
pub open spec fn trimmed(s: Seq<char>) -> Seq<char>
    decreases s.len(),
{
    if s.len() > 0 && is_white(s[0]) {
        trimmed(s.skip(1))
    } else if s.len() > 0 && is_white(s.last()) {
        trimmed(s.drop_last())
    } else {
        s
    }
}

/// Removes the white space at the two ends of a text.
pub fn trim(s: &str) -> (r: String)
    ensures
        r@ == trimmed(s@),
{
    let v = chars_of(s);
    let mut from: usize = 0;
    let mut to: usize = v.len();
    assert(s@.subrange(0, s@.len() as int) =~= s@);
    while from < to && white(v[from])
        invariant
            v@ == s@,
            from <= to <= v@.len(),
            trimmed(s@.subrange(from as int, to as int)) == trimmed(s@),
        ensures
            from <= to <= v@.len(),
            trimmed(s@.subrange(from as int, to as int)) == trimmed(s@),
            from < to ==> !is_white(s@[from as int]),
        decreases to - from,
    {
        assert(s@.subrange(from as int, to as int).skip(1) =~= s@.subrange(from + 1, to as int));
        from += 1;
    }
    while from < to && white(v[to - 1])
        invariant
            v@ == s@,
            from <= to <= v@.len(),
            trimmed(s@.subrange(from as int, to as int)) == trimmed(s@),
            from < to ==> !is_white(s@[from as int]),
        ensures
            from <= to <= v@.len(),
            trimmed(s@.subrange(from as int, to as int)) == trimmed(s@),
            from < to ==> !is_white(s@[from as int]) && !is_white(s@[to - 1]),
        decreases to - from,
    {
        assert(s@.subrange(from as int, to as int).drop_last() =~= s@.subrange(
            from as int,
            to - 1,
        ));
        to -= 1;
    }
    let mut out: String = String::new();
    push_range(&mut out, &v, from, to);
    assert(out@ =~= s@.subrange(from as int, to as int));
    out
}

// ------------------------------------------------------------------ decimals

/// The character for a decimal digit.
pub open spec fn digit_char(d: nat) -> char {
    ('0' as nat + d) as char
}

pub open spec fn is_digit(c: char) -> bool {
    '0' <= c <= '9'
}

/// The decimal form of a number, without leading zeros.
pub open spec fn decimal(n: nat) -> Seq<char>
    decreases n,
{
    if n < 10 {
        seq![digit_char(n)]
    } else {
        decimal(n / 10).push(digit_char(n % 10))
    }
}

/// Writes a number in decimal.
pub fn show_u64(n: u64) -> (r: String)
    ensures
        r@ == decimal(n as nat),
    decreases n,
{
    let mut out: String = if n < 10 {
        String::new()
    } else {
        show_u64(n / 10)
    };
    let d: u8 = (n % 10) as u8;
    out.push((48u8 + d) as char);
    assert(out@ =~= decimal(n as nat));
    out
}

/// The number that a row of decimal digits stands for.
pub open spec fn digits_value(s: Seq<char>) -> nat
    decreases s.len(),
{
    if s.len() == 0 {
        0
    } else {
        digits_value(s.drop_last()) * 10 + (s.last() as nat - '0' as nat) as nat
    }
}

pub open spec fn all_digits(s: Seq<char>) -> bool {
    forall|i: int| 0 <= i < s.len() ==> is_digit(#[trigger] s[i])
}

/// The number a text stands for: digits, at least one, perhaps after a plus
/// sign, with a value below 2^64.
pub open spec fn parsed_u64(s: Seq<char>) -> Option<u64> {
    let digits = if s.len() > 0 && s[0] == '+' {
        s.skip(1)
    } else {
        s
    };
    if digits.len() > 0 && all_digits(digits) && digits_value(digits) <= u64::MAX {
        Some(digits_value(digits) as u64)
    } else {
        None
    }
}

/// More digits never make a smaller number.
pub proof fn lemma_digits_value_grows(s: Seq<char>, k: int)
    requires
        0 <= k <= s.len(),
    ensures
        digits_value(s.take(k)) <= digits_value(s),
    decreases s.len() - k,
{
    if k < s.len() {
        lemma_digits_value_grows(s, k + 1);
        assert(s.take(k + 1).drop_last() =~= s.take(k));
    } else {
        assert(s.take(k) =~= s);
    }
}

/// Reads a number in decimal.
pub fn parse_u64(s: &str) -> (r: Option<u64>)
    ensures
        r == parsed_u64(s@),
{
    let v = chars_of(s);
    let from: usize = if v.len() > 0 && v[0] == '+' {
        1
    } else {
        0
    };
    let ghost digits = s@.skip(from as int);
    assert(s@.skip(0) =~= s@);
    if v.len() == from {
        return None;
    }
    let mut value: u64 = 0;
    let mut i: usize = from;
    while i < v.len()
        invariant
            v@ == s@,
            from <= 1,
            from <= i <= v@.len(),
            digits == s@.skip(from as int),
            digits == (if s@.len() > 0 && s@[0] == '+' { s@.skip(1) } else { s@ }),
            digits.len() > 0,
            all_digits(digits.take(i - from)),
            value == digits_value(digits.take(i - from)),
        decreases v@.len() - i,
    {
        let c = v[i];
        proof {
            assert(digits[i - from] == c);
            assert(digits.take(i - from + 1).drop_last() =~= digits.take(i - from));
            assert(digits.take(i - from + 1).last() == c);
        }
        if c < '0' || c > '9' {
            return None;
        }
        let d: u64 = (c as u32 - '0' as u32) as u64;
        proof {
            lemma_digits_value_grows(digits, i - from + 1);
            assert(digits_value(digits.take(i - from + 1)) == value * 10 + d);
        }
        if value > (u64::MAX - d) / 10 {
            return None;
        }
        value = value * 10 + d;
        i += 1;
    }
    assert(digits.take(i - from) =~= digits);
    Some(value)
}

/// Reading back a written number gives that number.
pub proof fn lemma_parse_decimal(n: u64)
    ensures
        parsed_u64(decimal(n as nat)) == Some(n),
{
    lemma_decimal_digits(n as nat);
    assert(is_digit(decimal(n as nat)[0]));
}

/// A decimal form is a non-empty row of digits with the value of its number.
pub proof fn lemma_decimal_digits(n: nat)
    ensures
        decimal(n).len() > 0,
        all_digits(decimal(n)),
        digits_value(decimal(n)) == n,
    decreases n,
{
    if n >= 10 {
        lemma_decimal_digits(n / 10);
        assert(decimal(n).drop_last() =~= decimal(n / 10));
    } else {
        reveal_with_fuel(digits_value, 2);
    }
}

/// Different numbers have different decimal forms.
pub proof fn lemma_decimal_injective(a: nat, b: nat)
    requires
        decimal(a) == decimal(b),
    ensures
        a == b,
{
    lemma_decimal_digits(a);
    lemma_decimal_digits(b);
}

} // verus!
