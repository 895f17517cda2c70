//! Character and string helpers: whitespace classes, ASCII case folding,
//! exact and case-insensitive comparison, and extraction of the first
//! whitespace-delimited token of a message text.

use vstd::prelude::*;

verus! {

/// The whitespace characters that delimit tokens in a message text.
pub open spec fn is_space(c: char) -> bool {
    c == ' ' || c == '\t' || c == '\n' || c == '\r'
}

/// Code point of `c`, with an ASCII capital letter folded to its small letter.
pub open spec fn lower_code(c: char) -> u32 {
    if 65 <= c as u32 && c as u32 <= 90 {
        (c as u32 + 32) as u32
    } else {
        c as u32
    }
}

/// Case-insensitive equality of two character sequences: equal lengths and
/// equal characters up to ASCII case folding.
pub open spec fn ci_eq(a: Seq<char>, b: Seq<char>) -> bool {
    &&& a.len() == b.len()
    &&& forall|i: int| 0 <= i < a.len() ==> #[trigger] lower_code(a[i]) == lower_code(b[i])
}

/// Ghost image of an optional string.
pub open spec fn opt_str_view(o: Option<String>) -> Option<Seq<char>> {
    match o {
        Some(s) => Some(s@),
        None => None,
    }
}

/// Runtime test for [`is_space`].
pub fn is_space_char(c: char) -> (r: bool)
    ensures
        r == is_space(c),
{
    c == ' ' || c == '\t' || c == '\n' || c == '\r'
}

/// Exact string equality, decided character by character.
pub fn str_eq(a: &str, b: &str) -> (r: bool)
    ensures
        r == (a@ == b@),
{
    let alen = a.unicode_len();
    let blen = b.unicode_len();
    if alen != blen {
        return false;
    }
    let mut i: usize = 0;
    while i < alen
        invariant
            alen == a@.len(),
            alen == b@.len(),
            i <= alen,
            forall|j: int| 0 <= j < i ==> a@[j] == b@[j],
        decreases alen - i,
    {
        if a.get_char(i) != b.get_char(i) {
            return false;
        }
        i = i + 1;
    }
    proof {
        assert(a@ =~= b@);
    }
    true
}

/// Case-insensitive string equality, per [`ci_eq`].
pub fn eq_ignore_ascii_case(a: &str, b: &str) -> (r: bool)
    ensures
        r == ci_eq(a@, b@),
{
    let alen = a.unicode_len();
    let blen = b.unicode_len();
    if alen != blen {
        return false;
    }
    let mut i: usize = 0;
    while i < alen
        invariant
            alen == a@.len(),
            alen == b@.len(),
            i <= alen,
            forall|j: int| 0 <= j < i ==> #[trigger] lower_code(a@[j]) == lower_code(b@[j]),
        decreases alen - i,
    {
        let ca = a.get_char(i);
        let cb = b.get_char(i);
        let ua = ca as u32;
        let ub = cb as u32;
        let la: u32 = if 65 <= ua && ua <= 90 { ua + 32 } else { ua };
        let lb: u32 = if 65 <= ub && ub <= 90 { ub + 32 } else { ub };
        if la != lb {
            proof {
                assert(lower_code(a@[i as int]) != lower_code(b@[i as int]));
            }
            return false;
        }
        i = i + 1;
    }
    true
}

/// The longest whitespace-free prefix of `s`.
pub open spec fn token_prefix(s: Seq<char>) -> Seq<char>
    decreases s.len(),
{
    if s.len() == 0 || is_space(s[0]) {
        Seq::empty()
    } else {
        seq![s[0]] + token_prefix(s.skip(1))
    }
}

/// The first whitespace-delimited token of `s`: leading whitespace is
/// dropped, and the token runs to the next whitespace character or to the
/// end. A blank or empty text has the empty token.
pub open spec fn first_token(s: Seq<char>) -> Seq<char>
    decreases s.len(),
{
    if s.len() == 0 {
        Seq::empty()
    } else if is_space(s[0]) {
        first_token(s.skip(1))
    } else {
        token_prefix(s)
    }
}

proof fn lemma_first_token_skip(s: Seq<char>, i: int)
    requires
        0 <= i <= s.len(),
        forall|k: int| 0 <= k < i ==> is_space(#[trigger] s[k]),
    ensures
        first_token(s) == first_token(s.skip(i)),
    decreases i,
{
    if i > 0 {
        assert(s.skip(1).skip(i - 1) =~= s.skip(i));
        lemma_first_token_skip(s.skip(1), i - 1);
    } else {
        assert(s.skip(0) =~= s);
    }
}

proof fn lemma_token_prefix_take(s: Seq<char>, m: int)
    requires
        0 <= m <= s.len(),
        forall|k: int| 0 <= k < m ==> !is_space(#[trigger] s[k]),
        m == s.len() || is_space(s[m]),
    ensures
        token_prefix(s) == s.subrange(0, m),
    decreases m,
{
    if m == 0 {
        assert(s.subrange(0, 0) =~= Seq::<char>::empty());
    } else {
        lemma_token_prefix_take(s.skip(1), m - 1);
        assert(seq![s[0]] + s.skip(1).subrange(0, m - 1) =~= s.subrange(0, m));
    }
}

/// Extracts the first whitespace-delimited token of `text`.
pub fn first_token_of(text: &str) -> (t: String)
    ensures
        t@ == first_token(text@),
{
    let n = text.unicode_len();
    let mut i: usize = 0;
    while i < n && is_space_char(text.get_char(i))
        invariant
            n == text@.len(),
            i <= n,
            forall|k: int| 0 <= k < i ==> is_space(#[trigger] text@[k]),
        decreases n - i,
    {
        i = i + 1;
    }
    let mut j: usize = i;
    while j < n && !is_space_char(text.get_char(j))
        invariant
            n == text@.len(),
            i <= j <= n,
            forall|k: int| i <= k < j ==> !is_space(#[trigger] text@[k]),
        decreases n - j,
    {
        j = j + 1;
    }
    let tok = text.substring_char(i, j).to_owned();
    proof {
        lemma_first_token_skip(text@, i as int);
        if i < n {
            lemma_token_prefix_take(text@.skip(i as int), j - i);
            assert(text@.skip(i as int).subrange(0, j - i) =~= text@.subrange(
                i as int,
                j as int,
            ));
        } else {
            assert(text@.skip(i as int) =~= Seq::<char>::empty());
            assert(text@.subrange(i as int, j as int) =~= Seq::<char>::empty());
        }
    }
    tok
}

} // verus!
