//! Text facts the parser needs: whether a string is a floating-point
//! literal, XML entity unescaping, and substring search.

use vstd::prelude::*;

verus! {

/// Whether the character is a decimal digit.
pub open spec fn is_digit_char(c: char) -> bool {
    '0' <= c && c <= '9'
}

/// The first position at or after `i` that does not hold a digit (or the end
/// of the text).
pub open spec fn skip_digits(s: Seq<char>, i: int) -> int
    decreases s.len() - i,
{
    if i < 0 || i >= s.len() || !is_digit_char(s[i]) {
        i
    } else {
        skip_digits(s, i + 1)
    }
}

/// A well-formed exponent suffix starting at `i`: either nothing, or an
/// exponent marker, an optional sign and at least one digit reaching the end.
pub open spec fn exp_ok(s: Seq<char>, i: int) -> bool {
    if i == s.len() {
        true
    } else if 0 <= i < s.len() && (s[i] == 'e' || s[i] == 'E') {
        let j = if i + 1 < s.len() && (s[i + 1] == '+' || s[i + 1] == '-') {
            i + 2
        } else {
            i + 1
        };
        skip_digits(s, j) > j && skip_digits(s, j) == s.len()
    } else {
        false
    }
}

/// A decimal floating-point number starting at `i`: digits, optionally a
/// point and more digits, or a point with at least one digit after it; then
/// an optional exponent.
pub open spec fn float_after_sign(s: Seq<char>, i: int) -> bool {
    let d1 = skip_digits(s, i);
    if d1 == i {
        0 <= i < s.len() && s[i] == '.' && {
            let d2 = skip_digits(s, i + 1);
            d2 > i + 1 && exp_ok(s, d2)
        }
    } else if d1 < s.len() && s[d1] == '.' {
        exp_ok(s, skip_digits(s, d1 + 1))
    } else {
        exp_ok(s, d1)
    }
}

/// Whether the text is a decimal floating-point literal: an optional sign,
/// then digits with an optional fractional part (at least one digit on one
/// side of the point), then an optional exponent.
pub open spec fn parses_as_float(s: Seq<char>) -> bool {
    let i: int = if s.len() > 0 && (s[0] == '+' || s[0] == '-') {
        1
    } else {
        0
    };
    float_after_sign(s, i)
}

/// Scan past decimal digits from position `i`.
fn scan_digits(s: &str, n: usize, i: usize) -> (j: usize)
    requires
        i <= s@.len(),
        n == s@.len(),
    ensures
        j == skip_digits(s@, i as int),
        i <= j <= s@.len(),
{
    let mut j = i;
    loop
        invariant
            i <= j <= n,
            n == s@.len(),
            skip_digits(s@, i as int) == skip_digits(s@, j as int),
        decreases n - j,
    {
        if j < n {
            let c = s.get_char(j);
            if '0' <= c && c <= '9' {
                j += 1;
            } else {
                return j;
            }
        } else {
            return j;
        }
    }
}

/// Check the optional exponent suffix starting at `i`.
fn check_exp(s: &str, n: usize, i: usize) -> (r: bool)
    requires
        i <= s@.len(),
        n == s@.len(),
    ensures
        r == exp_ok(s@, i as int),
{
    if i == n {
        true
    } else {
        let c = s.get_char(i);
        if c == 'e' || c == 'E' {
            let j: usize = if i + 1 < n {
                let c2 = s.get_char(i + 1);
                if c2 == '+' || c2 == '-' {
                    i + 2
                } else {
                    i + 1
                }
            } else {
                i + 1
            };
            let d = scan_digits(s, n, j);
            d > j && d == n
        } else {
            false
        }
    }
}

/// Whether the text is a decimal floating-point literal (see
/// [`parses_as_float`]).
pub fn is_float_text(s: &str) -> (r: bool)
    ensures
        r == parses_as_float(s@),
{
    let n = s.unicode_len();
    let start: usize = if n > 0 {
        let c = s.get_char(0);
        if c == '+' || c == '-' {
            1
        } else {
            0
        }
    } else {
        0
    };
    let d1 = scan_digits(s, n, start);
    if d1 == start {
        if start < n && s.get_char(start) == '.' {
            let d2 = scan_digits(s, n, start + 1);
            if d2 > start + 1 {
                check_exp(s, n, d2)
            } else {
                false
            }
        } else {
            false
        }
    } else if d1 < n && s.get_char(d1) == '.' {
        let d2 = scan_digits(s, n, d1 + 1);
        check_exp(s, n, d2)
    } else {
        check_exp(s, n, d1)
    }
}

/// The XML-unescaped form of a piece of raw character data, or nothing when
/// the escapes are malformed. Stands for quick_xml's unescape; a function of
/// the characters alone.
pub uninterp spec fn xml_unescape(s: Seq<char>) -> Option<Seq<char>>;

/// Relies on quick_xml::escape::unescape: resolves entity and character
/// references in raw character data; fails exactly on malformed escapes.
#[verifier::external_body]
pub(crate) fn unescape_text(s: &str) -> (r: Result<String, String>)
    ensures
        r matches Ok(t) ==> xml_unescape(s@) == Some(t@),
        r is Ok <==> xml_unescape(s@) is Some,
{
    match quick_xml::escape::unescape(s) {
        Ok(t) => Ok(t.into_owned()),
        Err(e) => Err(e.to_string()),
    }
}

/// Whether `n` occurs as a contiguous run of characters inside `h`.
pub open spec fn sp_contains(h: Seq<char>, n: Seq<char>) -> bool {
    exists|i: int| 0 <= i && i + n.len() <= h.len() && #[trigger] h.subrange(i, i + n.len()) == n
}

/// Relies on str::contains with a string pattern: a match is a contiguous
/// byte substring, and a byte substring that equals the UTF-8 form of the
/// pattern always falls on character boundaries, so this is exactly a
/// contiguous run of characters.
#[verifier::external_body]
pub(crate) fn str_contains(h: &str, n: &str) -> (r: bool)
    ensures
        r == sp_contains(h@, n@),
{
    h.contains(n)
}

/// Character-for-character equality of a string and a literal.
pub(crate) fn str_eq(a: &String, b: &str) -> (r: bool)
    ensures
        r == (a@ == b@),
{
    let s = b.to_owned();
    *a == s
}

} // verus!
