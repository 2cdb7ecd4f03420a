//! Small verified text utilities: decimal rendering of ids for query
//! strings and filenames, and exact-token lookup in a whitespace-delimited
//! tag string.

use vstd::prelude::*;

verus! {

/// The character for a single decimal digit.
pub open spec fn digit_char(d: int) -> char {
    if d == 0 {
        '0'
    } else if d == 1 {
        '1'
    } else if d == 2 {
        '2'
    } else if d == 3 {
        '3'
    } else if d == 4 {
        '4'
    } else if d == 5 {
        '5'
    } else if d == 6 {
        '6'
    } else if d == 7 {
        '7'
    } else if d == 8 {
        '8'
    } else {
        '9'
    }
}

/// Decimal representation of `n`, most significant digit first, with no
/// leading zeros (`0` itself is the single digit `0`).
pub open spec fn dec_rep(n: nat) -> Seq<char>
    decreases n,
{
    if n < 10 {
        seq![digit_char(n as int)]
    } else {
        dec_rep(n / 10).push(digit_char((n % 10) as int))
    }
}

/// The one-character string for a decimal digit.
fn digit_str(d: usize) -> (s: &'static str)
    requires
        d < 10,
    ensures
        s@.len() == 1,
        s@[0] == digit_char(d as int),
{
    proof {
        reveal_strlit("0");
        reveal_strlit("1");
        reveal_strlit("2");
        reveal_strlit("3");
        reveal_strlit("4");
        reveal_strlit("5");
        reveal_strlit("6");
        reveal_strlit("7");
        reveal_strlit("8");
        reveal_strlit("9");
    }
    match d {
        0 => "0",
        1 => "1",
        2 => "2",
        3 => "3",
        4 => "4",
        5 => "5",
        6 => "6",
        7 => "7",
        8 => "8",
        _ => "9",
    }
}

/// Appends the decimal representation of `n` to `out`.
pub fn push_decimal(out: &mut String, n: usize)
    ensures
        final(out)@ == old(out)@ + dec_rep(n as nat),
    decreases n,
{
    if n >= 10 {
        push_decimal(out, n / 10);
    }
    let ds = digit_str(n % 10);
    out.append(ds);
    proof {
        assert(ds@ =~= seq![digit_char((n % 10) as int)]);
        assert(out@ =~= old(out)@ + dec_rep(n as nat));
    }
}

/// The decimal representation of `n` as a fresh string.
pub fn decimal_string(n: usize) -> (s: String)
    ensures
        s@ == dec_rep(n as nat),
{
    let mut s = String::new();
    push_decimal(&mut s, n);
    proof {
        assert(s@ =~= dec_rep(n as nat));
    }
    s
}

/// ASCII whitespace: the delimiters between tags in a tag string.
pub open spec fn is_space(c: char) -> bool {
    c == ' ' || c == '\t' || c == '\n' || c == '\u{c}' || c == '\r'
}

/// `tok` occupies positions `i .. i + tok.len()` of `s`, delimited on both
/// sides by whitespace or by the ends of `s`.
pub open spec fn token_at(s: Seq<char>, i: int, tok: Seq<char>) -> bool {
    &&& 0 <= i
    &&& i + tok.len() <= s.len()
    &&& s.subrange(i, i + tok.len()) == tok
    &&& (i == 0 || is_space(s[i - 1]))
    &&& (i + tok.len() == s.len() || is_space(s[i + tok.len()]))
}

/// `tok` is one of the whitespace-delimited tokens of `s`: it is nonempty,
/// contains no whitespace itself, and appears somewhere in `s` bounded by
/// whitespace or the ends of the string.
pub open spec fn has_token(s: Seq<char>, tok: Seq<char>) -> bool {
    &&& tok.len() > 0
    &&& (forall|j: int| 0 <= j < tok.len() ==> !is_space(tok[j]))
    &&& exists|i: int| token_at(s, i, tok)
}

/// Whether `c` is an ASCII whitespace character.
fn char_is_space(c: char) -> (b: bool)
    ensures
        b == is_space(c),
{
    c == ' ' || c == '\t' || c == '\n' || c == '\u{c}' || c == '\r'
}

/// Whether `tok` matches the characters of `s` starting at position `i`.
fn matches_at(s: &str, i: usize, tok: &str, m: usize) -> (r: bool)
    requires
        m == tok@.len(),
        i + m <= s@.len(),
        i + m <= usize::MAX,
    ensures
        r == (s@.subrange(i as int, i + m) == tok@),
{
    let mut j: usize = 0;
    while j < m
        invariant
            0 <= j <= m,
            m == tok@.len(),
            i + m <= s@.len(),
            i + m <= usize::MAX,
            forall|k: int| 0 <= k < j ==> s@[i + k] == tok@[k],
        decreases m - j,
    {
        if s.get_char(i + j) != tok.get_char(j) {
            assert(s@.subrange(i as int, i + m) != tok@) by {
                assert(s@.subrange(i as int, i + m)[j as int] != tok@[j as int]);
            }
            return false;
        }
        j += 1;
    }
    assert(s@.subrange(i as int, i + m) =~= tok@);
    true
}

/// Whether the whitespace-delimited tag string `s` contains `tok` as an
/// exact token (not merely as a substring of a longer tag).
pub fn contains_token(s: &str, tok: &str) -> (r: bool)
    ensures
        r == has_token(s@, tok@),
{
    let m = tok.unicode_len();
    let n = s.unicode_len();
    if m == 0 || m > n {
        return false;
    }
    let mut j: usize = 0;
    while j < m
        invariant
            0 <= j <= m,
            m == tok@.len(),
            forall|k: int| 0 <= k < j ==> !is_space(tok@[k]),
        decreases m - j,
    {
        if char_is_space(tok.get_char(j)) {
            return false;
        }
        j += 1;
    }
    let mut i: usize = 0;
    while i <= n - m
        invariant
            0 <= i <= n - m + 1,
            m == tok@.len(),
            n == s@.len(),
            0 < m <= n,
            forall|k: int| 0 <= k < m ==> !is_space(tok@[k]),
            forall|p: int| 0 <= p < i ==> !token_at(s@, p, tok@),
        decreases n - i,
    {
        let left_ok = i == 0 || char_is_space(s.get_char(i - 1));
        let right_ok = i + m == n || char_is_space(s.get_char(i + m));
        if left_ok && right_ok && matches_at(s, i, tok, m) {
            assert(token_at(s@, i as int, tok@));
            return true;
        }
        assert(!token_at(s@, i as int, tok@));
        i += 1;
    }
    assert(forall|p: int| token_at(s@, p, tok@) ==> 0 <= p <= n - m);
    false
}

} // verus!
