//! Small helpers on strings: equality with a literal, prefixes, ordering,
//! and numbers written as text.

use vstd::prelude::*;
use vstd::string::StringExecFns;

verus! {

/// `p` is a prefix of `s`.
pub open spec fn is_prefix(p: Seq<char>, s: Seq<char>) -> bool {
    p.len() <= s.len() && s.subrange(0, p.len() as int) == p
}

/// Lexicographic "strictly less" on character sequences, characters compared
/// by code point.
pub open spec fn lex_lt(a: Seq<char>, b: Seq<char>) -> bool
    decreases a.len(),
{
    if b.len() == 0 {
        false
    } else if a.len() == 0 {
        true
    } else if a[0] != b[0] {
        (a[0] as int) < (b[0] as int)
    } else {
        lex_lt(a.drop_first(), b.drop_first())
    }
}

/// Whether `s` holds exactly the characters of `lit`.
pub fn text_is(s: &String, lit: &str) -> (r: bool)
    ensures
        r == (s@ == lit@),
{
    let other = String::from_str(lit);
    *s == other
}

/// `str::starts_with` with a string pattern: true exactly when the pattern's
/// characters are the first characters of `s`.
#[verifier::external_body]
pub(crate) fn has_prefix(s: &str, prefix: &str) -> (r: bool)
    ensures
        r == is_prefix(prefix@, s@),
{
    s.starts_with(prefix)
}

/// `<` on `str`: std orders strings lexicographically by their bytes, which
/// is the order of their code points.
#[verifier::external_body]
pub(crate) fn text_lt(a: &str, b: &str) -> (r: bool)
    ensures
        r == lex_lt(a@, b@),
{
    a < b
}

/// The digit of a value below 16, upper case from ten on.
pub open spec fn digit(d: nat) -> Seq<char> {
    if d == 0 {
        "0"@
    } else if d == 1 {
        "1"@
    } else if d == 2 {
        "2"@
    } else if d == 3 {
        "3"@
    } else if d == 4 {
        "4"@
    } else if d == 5 {
        "5"@
    } else if d == 6 {
        "6"@
    } else if d == 7 {
        "7"@
    } else if d == 8 {
        "8"@
    } else if d == 9 {
        "9"@
    } else if d == 10 {
        "A"@
    } else if d == 11 {
        "B"@
    } else if d == 12 {
        "C"@
    } else if d == 13 {
        "D"@
    } else if d == 14 {
        "E"@
    } else {
        "F"@
    }
}

/// A number in upper-case hexadecimal, filled with zeros on the left up to
/// `width` digits; a number that needs more digits has them all.
pub open spec fn hex_text(n: nat, width: nat) -> Seq<char>
    decreases n, width,
{
    if n < 16 && width <= 1 {
        digit(n)
    } else {
        hex_text(
            n / 16,
            if width > 0 {
                (width - 1) as nat
            } else {
                0
            },
        ) + digit(n % 16)
    }
}

fn digit_text(d: u64) -> (r: &'static str)
    requires
        d < 16,
    ensures
        r@ == digit(d as nat),
{
    if d == 0 {
        "0"
    } else if d == 1 {
        "1"
    } else if d == 2 {
        "2"
    } else if d == 3 {
        "3"
    } else if d == 4 {
        "4"
    } else if d == 5 {
        "5"
    } else if d == 6 {
        "6"
    } else if d == 7 {
        "7"
    } else if d == 8 {
        "8"
    } else if d == 9 {
        "9"
    } else if d == 10 {
        "A"
    } else if d == 11 {
        "B"
    } else if d == 12 {
        "C"
    } else if d == 13 {
        "D"
    } else if d == 14 {
        "E"
    } else {
        "F"
    }
}

/// Writes `n` in upper-case hexadecimal with at least `width` digits.
pub fn hex_upper(n: u32, width: u32) -> (r: String)
    ensures
        r@ == hex_text(n as nat, width as nat),
{
    let mut tail = String::new();
    let mut v: u32 = n;
    let mut w: u32 = width;
    assert(hex_text(v as nat, w as nat) + tail@ =~= hex_text(v as nat, w as nat));
    while !(v < 16 && w <= 1)
        invariant
            hex_text(n as nat, width as nat) == hex_text(v as nat, w as nat) + tail@,
        decreases v, w,
    {
        let ghost before = tail@;
        let d = digit_text((v % 16) as u64);
        tail = String::from_str(d).concat(tail.as_str());
        let ghost head = hex_text(
            (v / 16) as nat,
            if w > 0 {
                (w - 1) as nat
            } else {
                0
            },
        );
        assert((head + digit((v % 16) as nat)) + before =~= head + tail@);
        v = v / 16;
        w = if w > 0 {
            w - 1
        } else {
            0
        };
    }
    String::from_str(digit_text(v as u64)).concat(tail.as_str())
}

/// A number in decimal.
pub open spec fn decimal_text(n: nat) -> Seq<char>
    decreases n,
{
    if n < 10 {
        digit(n)
    } else {
        decimal_text(n / 10) + digit(n % 10)
    }
}

/// An integer in decimal, with a minus sign in front of a negative one.
pub open spec fn signed_text(n: int) -> Seq<char> {
    if n < 0 {
        "-"@ + decimal_text((-n) as nat)
    } else {
        decimal_text(n as nat)
    }
}

/// Writes `n` in decimal.
pub fn decimal(n: u64) -> (r: String)
    ensures
        r@ == decimal_text(n as nat),
{
    let mut tail = String::new();
    let mut v: u64 = n;
    assert(decimal_text(v as nat) + tail@ =~= decimal_text(v as nat));
    while v >= 10
        invariant
            decimal_text(n as nat) == decimal_text(v as nat) + tail@,
        decreases v,
    {
        let ghost before = tail@;
        let d = digit_text(v % 10);
        tail = String::from_str(d).concat(tail.as_str());
        let ghost head = decimal_text((v / 10) as nat);
        assert((head + digit((v % 10) as nat)) + before =~= head + tail@);
        v = v / 10;
    }
    String::from_str(digit_text(v)).concat(tail.as_str())
}

/// Writes `n` in decimal, with a minus sign if it is negative.
pub fn signed_decimal(n: i64) -> (r: String)
    ensures
        r@ == signed_text(n as int),
{
    if n < 0 {
        let magnitude: u64 = ((-(n + 1)) as u64) + 1;
        String::from_str("-").concat(decimal(magnitude).as_str())
    } else {
        decimal(n as u64)
    }
}

/// `prefix` followed by `s`.
pub fn prefixed(prefix: &str, s: &str) -> (r: String)
    ensures
        r@ == prefix@ + s@,
{
    String::from_str(prefix).concat(s)
}

/// `lex_lt` never holds both ways.
pub proof fn lemma_lex_lt_asymmetric(a: Seq<char>, b: Seq<char>)
    ensures
        lex_lt(a, b) ==> !lex_lt(b, a),
    decreases a.len(),
{
    if a.len() > 0 && b.len() > 0 && a[0] == b[0] {
        lemma_lex_lt_asymmetric(a.drop_first(), b.drop_first());
    }
}

/// "Not greater" composes: from `a <= b` and `b <= c` follows `a <= c`.
pub proof fn lemma_lex_le_transitive(a: Seq<char>, b: Seq<char>, c: Seq<char>)
    requires
        !lex_lt(b, a),
        !lex_lt(c, b),
    ensures
        !lex_lt(c, a),
    decreases a.len(),
{
    if a.len() > 0 {
        assert(b.len() > 0);
        assert(c.len() > 0);
        if a[0] == b[0] && b[0] == c[0] {
            lemma_lex_le_transitive(a.drop_first(), b.drop_first(), c.drop_first());
        }
    }
}

} // verus!
