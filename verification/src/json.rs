//! The JSON request body the credential broker sends: a one-key object
//! `{"user_id":"<id>"}`, with the identifier written as a JSON string
//! literal, escaped character by character.

use vstd::prelude::*;

verus! {

/// The lowercase hexadecimal digit for `n`, for `n < 16`.
pub open spec fn hex_digit(n: u32) -> char {
    if n == 0 {
        '0'
    } else if n == 1 {
        '1'
    } else if n == 2 {
        '2'
    } else if n == 3 {
        '3'
    } else if n == 4 {
        '4'
    } else if n == 5 {
        '5'
    } else if n == 6 {
        '6'
    } else if n == 7 {
        '7'
    } else if n == 8 {
        '8'
    } else if n == 9 {
        '9'
    } else if n == 10 {
        'a'
    } else if n == 11 {
        'b'
    } else if n == 12 {
        'c'
    } else if n == 13 {
        'd'
    } else if n == 14 {
        'e'
    } else {
        'f'
    }
}

/// How one character is written inside a JSON string literal: quote and
/// backslash escaped, the named control characters short-escaped, any other
/// control character as a `\u00XX` escape, everything else as itself.
pub open spec fn json_escaped_char(c: char) -> Seq<char> {
    if c == '"' {
        seq!['\\', '"']
    } else if c == '\\' {
        seq!['\\', '\\']
    } else if c == '\u{8}' {
        seq!['\\', 'b']
    } else if c == '\t' {
        seq!['\\', 't']
    } else if c == '\n' {
        seq!['\\', 'n']
    } else if c == '\u{c}' {
        seq!['\\', 'f']
    } else if c == '\r' {
        seq!['\\', 'r']
    } else if (c as u32) < 32 {
        seq!['\\', 'u', '0', '0', hex_digit(((c as u32) / 16) as u32), hex_digit(
            ((c as u32) % 16) as u32,
        )]
    } else {
        seq![c]
    }
}

/// A whole character sequence written as the inside of a JSON string
/// literal.
pub open spec fn json_escaped(s: Seq<char>) -> Seq<char>
    decreases s.len(),
{
    if s.len() == 0 {
        Seq::empty()
    } else {
        json_escaped_char(s[0]) + json_escaped(s.skip(1))
    }
}

proof fn lemma_json_escaped_push(t: Seq<char>, c: char)
    ensures
        json_escaped(t.push(c)) == json_escaped(t) + json_escaped_char(c),
    decreases t.len(),
{
    if t.len() == 0 {
        assert(t.push(c)[0] == c);
        assert(t.push(c).skip(1) =~= Seq::<char>::empty());
        assert(json_escaped(t.push(c)) == json_escaped_char(c) + json_escaped(
            Seq::<char>::empty(),
        ));
        assert(json_escaped(t.push(c)) =~= json_escaped(t) + json_escaped_char(c));
    } else {
        assert(t.push(c)[0] == t[0]);
        assert(t.push(c).skip(1) =~= t.skip(1).push(c));
        lemma_json_escaped_push(t.skip(1), c);
        assert(json_escaped(t.push(c)) == json_escaped_char(t[0]) + (json_escaped(t.skip(1))
            + json_escaped_char(c)));
        assert(json_escaped(t) == json_escaped_char(t[0]) + json_escaped(t.skip(1)));
        assert(json_escaped(t.push(c)) =~= json_escaped(t) + json_escaped_char(c));
    }
}

/// The single-character string holding the lowercase hexadecimal digit for
/// `n`.
fn hex_digit_string(n: u32) -> (r: String)
    requires
        n < 16,
    ensures
        r@ == seq![hex_digit(n)],
{
    proof {
        reveal_strlit("0");
        reveal_strlit("1");
        reveal_strlit("2");
        reveal_strlit("3");
        reveal_strlit("4");
        reveal_strlit("5");
        reveal_strlit("6");
        reveal_strlit("7");
        reveal_strlit("8");
        reveal_strlit("9");
        reveal_strlit("a");
        reveal_strlit("b");
        reveal_strlit("c");
        reveal_strlit("d");
        reveal_strlit("e");
        reveal_strlit("f");
    }
    let r = if n == 0 {
        String::from_str("0")
    } else if n == 1 {
        String::from_str("1")
    } else if n == 2 {
        String::from_str("2")
    } else if n == 3 {
        String::from_str("3")
    } else if n == 4 {
        String::from_str("4")
    } else if n == 5 {
        String::from_str("5")
    } else if n == 6 {
        String::from_str("6")
    } else if n == 7 {
        String::from_str("7")
    } else if n == 8 {
        String::from_str("8")
    } else if n == 9 {
        String::from_str("9")
    } else if n == 10 {
        String::from_str("a")
    } else if n == 11 {
        String::from_str("b")
    } else if n == 12 {
        String::from_str("c")
    } else if n == 13 {
        String::from_str("d")
    } else if n == 14 {
        String::from_str("e")
    } else {
        String::from_str("f")
    };
    proof {
        assert(r@ =~= seq![hex_digit(n)]);
    }
    r
}

/// Escapes `s` for use inside a JSON string literal.
pub fn json_escape(s: &str) -> (r: String)
    ensures
        r@ == json_escaped(s@),
{
    let n = s.unicode_len();
    let mut out = String::new();
    let mut i: usize = 0;
    proof {
        assert(s@.take(0) =~= Seq::<char>::empty());
    }
    while i < n
        invariant
            n == s@.len(),
            i <= n,
            out@ == json_escaped(s@.take(i as int)),
        decreases n - i,
    {
        proof {
            reveal_strlit("\\\"");
            reveal_strlit("\\\\");
            reveal_strlit("\\b");
            reveal_strlit("\\t");
            reveal_strlit("\\n");
            reveal_strlit("\\f");
            reveal_strlit("\\r");
            reveal_strlit("\\u00");
        }
        let c = s.get_char(i);
        if c == '"' {
            out.append("\\\"");
        } else if c == '\\' {
            out.append("\\\\");
        } else if c == '\u{8}' {
            out.append("\\b");
        } else if c == '\t' {
            out.append("\\t");
        } else if c == '\n' {
            out.append("\\n");
        } else if c == '\u{c}' {
            out.append("\\f");
        } else if c == '\r' {
            out.append("\\r");
        } else if (c as u32) < 32 {
            out.append("\\u00");
            let hi = hex_digit_string((c as u32) / 16);
            out.append(hi.as_str());
            let lo = hex_digit_string((c as u32) % 16);
            out.append(lo.as_str());
        } else {
            let one = s.substring_char(i, i + 1);
            proof {
                assert(one@ =~= seq![s@[i as int]]);
            }
            out.append(one);
        }
        proof {
            lemma_json_escaped_push(s@.take(i as int), s@[i as int]);
            assert(s@.take(i as int + 1) =~= s@.take(i as int).push(s@[i as int]));
            assert(out@ =~= json_escaped(s@.take(i as int + 1)));
        }
        i = i + 1;
    }
    proof {
        assert(s@.take(n as int) =~= s@);
    }
    out
}

/// The broker's request body for a given user identifier.
pub open spec fn user_id_body(id: Seq<char>) -> Seq<char> {
    "{\"user_id\":\""@ + json_escaped(id) + "\"}"@
}

/// Builds the broker's request body `{"user_id":"<id>"}`.
pub fn user_id_body_of(user_id: &str) -> (r: String)
    ensures
        r@ == user_id_body(user_id@),
{
    let mut out = String::from_str("{\"user_id\":\"");
    let escaped = json_escape(user_id);
    out.append(escaped.as_str());
    out.append("\"}");
    out
}

} // verus!
