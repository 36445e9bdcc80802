//! Turning `send-keys` tokens into the text that is typed into a pane.

use crate::text::{chars_of, join, joined, same, texts};
use vstd::prelude::*;

verus! {

pub open spec fn is_letter(c: char) -> bool {
    'a' <= c <= 'z' || 'A' <= c <= 'Z'
}

/// The control character that a letter stands for, from 1 for A to 26 for Z.
pub open spec fn control_char(c: char) -> char {
    if 'a' <= c {
        (c as int - 'a' as int + 1) as char
    } else {
        (c as int - 'A' as int + 1) as char
    }
}

/// Whether a token names a control character: `C-` and one ASCII letter.
pub open spec fn is_control(token: Seq<char>) -> bool {
    token.len() == 3 && token[0] == 'C' && token[1] == '-' && is_letter(token[2])
}

/// What is typed for one token: the control sequence of a known key name, or
/// else the token itself.
pub open spec fn key_text(token: Seq<char>) -> Seq<char> {
    if token == "Enter"@ {
        seq!['\r']
    } else if token == "Tab"@ {
        seq!['\t']
    } else if token == "Space"@ {
        seq![' ']
    } else if is_control(token) {
        seq![control_char(token[2])]
    } else {
        token
    }
}

/// What is typed for a list of tokens: in literal mode the tokens with spaces
/// between them, otherwise what each token stands for, with nothing between.
pub open spec fn send_text(tokens: Seq<Seq<char>>, literal: bool) -> Seq<char> {
    if literal {
        joined(tokens, seq![' '])
    } else {
        joined(tokens.map_values(|t: Seq<char>| key_text(t)), Seq::empty())
    }
}

fn one_char(c: char) -> (r: String)
    ensures
        r@ == seq![c],
{
    let mut s: String = String::new();
    s.push(c);
    assert(s@ =~= seq![c]);
    s
}

/// Translates one token that is not sent literally.
pub fn translate_key_token(token: &str) -> (r: String)
    ensures
        r@ == key_text(token@),
{
    if same(token, "Enter") {
        return one_char('\r');
    }
    if same(token, "C-m") {
        proof {
            reveal_strlit("C-m");
            reveal_strlit("Enter");
            reveal_strlit("Tab");
            reveal_strlit("Space");
        }
        return one_char('\r');
    }
    if same(token, "Tab") {
        return one_char('\t');
    }
    if same(token, "Space") {
        return one_char(' ');
    }
    let v = chars_of(token);
    if v.len() == 3 && v[0] == 'C' && v[1] == '-' {
        let c = v[2];
        if 'a' <= c && c <= 'z' {
            let code: u8 = (c as u32 - 'a' as u32) as u8 + 1;
            return one_char(code as char);
        }
        if 'A' <= c && c <= 'Z' {
            let code: u8 = (c as u32 - 'A' as u32) as u8 + 1;
            return one_char(code as char);
        }
    }
    token.to_owned()
}

/// Builds the text that is sent to a pane for the given tokens.
pub fn build_send_text(tokens: &[String], literal: bool) -> (r: String)
    ensures
        r@ == send_text(texts(tokens@), literal),
{
    if literal {
        proof {
            reveal_strlit(" ");
            assert(" "@ =~= seq![' ']);
        }
        return join(tokens, " ");
    }
    let ghost keys = texts(tokens@).map_values(|t: Seq<char>| key_text(t));
    let mut typed: Vec<String> = Vec::new();
    for i in 0..tokens.len()
        invariant
            keys == texts(tokens@).map_values(|t: Seq<char>| key_text(t)),
            texts(typed@) == keys.take(i as int),
    {
        let ghost before = texts(typed@);
        typed.push(translate_key_token(tokens[i].as_str()));
        assert(texts(typed@) =~= before.push(keys[i as int]));
        assert(keys.take(i + 1) =~= keys.take(i as int).push(keys[i as int]));
    }
    proof {
        reveal_strlit("");
        assert(""@ =~= Seq::<char>::empty());
        assert(keys.take(tokens@.len() as int) =~= keys);
    }
    join(typed.as_slice(), "")
}

/// Tokens typed one invocation after the other come out as they do together.
pub proof fn law_keys_in_turn(first: Seq<Seq<char>>, second: Seq<Seq<char>>)
    ensures
        send_text(first + second, false) == send_text(first, false) + send_text(second, false),
    decreases second.len(),
{
    if second.len() == 0 {
        assert(first + second =~= first);
        assert(send_text(first, false) + send_text(second, false) =~= send_text(first, false));
    } else {
        let init = second.drop_last();
        law_keys_in_turn(first, init);
        lemma_last_key(second);
        lemma_last_key(first + second);
        assert((first + second).drop_last() =~= first + init);
        assert(send_text(first, false) + send_text(second, false) =~= send_text(first, false)
            + send_text(init, false) + key_text(second.last()));
    }
}

proof fn lemma_last_key(tokens: Seq<Seq<char>>)
    requires
        tokens.len() > 0,
    ensures
        send_text(tokens, false) == send_text(tokens.drop_last(), false) + key_text(tokens.last()),
{
    let keys = tokens.map_values(|t: Seq<char>| key_text(t));
    assert(tokens.drop_last().map_values(|t: Seq<char>| key_text(t)) =~= keys.drop_last());
    assert(send_text(tokens, false) =~= send_text(tokens.drop_last(), false) + key_text(
        tokens.last(),
    ));
}

} // verus!
