//! Positional scanning over label text: ASCII character classes, literal
//! segments, and runs of a class, each with an executable check proved
//! equivalent to its specification over the string's character sequence.

use vstd::prelude::*;
use vstd::string::StrSliceExecFns;

verus! {

/// ASCII decimal digit.
pub open spec fn is_digit(c: char) -> bool {
    48 <= c as u32 && c as u32 <= 57
}

/// ASCII upper-case letter.
pub open spec fn is_upper(c: char) -> bool {
    65 <= c as u32 && c as u32 <= 90
}

/// ASCII lower-case letter.
pub open spec fn is_lower(c: char) -> bool {
    97 <= c as u32 && c as u32 <= 122
}

/// ASCII letter or digit.
pub open spec fn is_alnum(c: char) -> bool {
    is_digit(c) || is_upper(c) || is_lower(c)
}

/// Numeric value of an ASCII digit.
pub open spec fn digit_val(c: char) -> int {
    c as u32 - 48
}

/// The character classes the grammars draw runs from.
#[derive(Clone, Copy, Debug, PartialEq, Eq)]
pub enum CharClass {
    Digit,
    Upper,
    Alnum,
}

pub open spec fn in_class(k: CharClass, c: char) -> bool {
    match k {
        CharClass::Digit => is_digit(c),
        CharClass::Upper => is_upper(c),
        CharClass::Alnum => is_alnum(c),
    }
}

/// The literal `lit` stands in `s` at position `i`.
pub open spec fn lit_at(s: Seq<char>, i: int, lit: Seq<char>) -> bool {
    &&& 0 <= i
    &&& i + lit.len() <= s.len()
    &&& s.subrange(i, i + lit.len() as int) == lit
}

/// Positions `i..i + n` of `s` exist and all hold characters of class `k`.
pub open spec fn class_run(s: Seq<char>, i: int, n: int, k: CharClass) -> bool {
    &&& 0 <= i
    &&& 0 <= n
    &&& i + n <= s.len()
    &&& forall|j: int| i <= j < i + n ==> in_class(k, #[trigger] s[j])
}

/// Positions `i..i + n` of `s` exist and all hold digits.
pub open spec fn digits_at(s: Seq<char>, i: int, n: int) -> bool {
    class_run(s, i, n, CharClass::Digit)
}

/// Positions `i..i + n` of `s` exist and all hold letters or digits.
pub open spec fn alnums_at(s: Seq<char>, i: int, n: int) -> bool {
    class_run(s, i, n, CharClass::Alnum)
}

/// Does `c` belong to class `k`?
pub fn check_class(c: char, k: CharClass) -> (b: bool)
    ensures
        b == in_class(k, c),
{
    let u = c as u32;
    match k {
        CharClass::Digit => 48 <= u && u <= 57,
        CharClass::Upper => 65 <= u && u <= 90,
        CharClass::Alnum => (48 <= u && u <= 57) || (65 <= u && u <= 90) || (97 <= u && u <= 122),
    }
}

/// Does position `i` of `s` exist and hold a character of class `k`?
pub fn check_class_at(s: &str, i: usize, k: CharClass) -> (b: bool)
    ensures
        b == (i < s@.len() && in_class(k, s@[i as int])),
        s@.len() <= usize::MAX,
{
    if i < s.unicode_len() {
        check_class(s.get_char(i), k)
    } else {
        false
    }
}

/// Does position `i` of `s` exist and hold exactly the character `c`?
pub fn check_char(s: &str, i: usize, c: char) -> (b: bool)
    ensures
        b == (i < s@.len() && s@[i as int] == c),
        s@.len() <= usize::MAX,
{
    if i < s.unicode_len() {
        s.get_char(i) == c
    } else {
        false
    }
}

/// Does the literal `lit` stand in `s` at position `i`?
pub fn check_lit(s: &str, i: usize, lit: &str) -> (b: bool)
    ensures
        b == lit_at(s@, i as int, lit@),
        s@.len() <= usize::MAX,
{
    let n = s.unicode_len();
    let m = lit.unicode_len();
    if i > n || m > n - i {
        return false;
    }
    let mut j: usize = 0;
    while j < m
        invariant
            i + m <= s@.len(),
            i + m <= usize::MAX,
            s@.len() <= usize::MAX,
            m == lit@.len(),
            j <= m,
            forall|l: int| 0 <= l < j ==> s@[i + l] == lit@[l],
        decreases m - j,
    {
        if s.get_char(i + j) != lit.get_char(j) {
            proof {
                assert(s@.subrange(i as int, i + lit@.len() as int)[j as int] == s@[i + j]);
            }
            return false;
        }
        j += 1;
    }
    proof {
        assert(s@.subrange(i as int, i + lit@.len() as int) =~= lit@);
    }
    true
}

/// Do positions `i..i + n` of `s` exist and all hold characters of class `k`?
pub fn check_run(s: &str, i: usize, n: usize, k: CharClass) -> (b: bool)
    ensures
        b == class_run(s@, i as int, n as int, k),
        s@.len() <= usize::MAX,
{
    let len = s.unicode_len();
    if i > len || n > len - i {
        return false;
    }
    let mut j: usize = 0;
    while j < n
        invariant
            i + n <= s@.len(),
            i + n <= usize::MAX,
            s@.len() <= usize::MAX,
            j <= n,
            forall|l: int| i <= l < i + j ==> in_class(k, #[trigger] s@[l]),
        decreases n - j,
    {
        if !check_class(s.get_char(i + j), k) {
            proof {
                assert(!in_class(k, s@[i + j]));
            }
            return false;
        }
        j += 1;
    }
    true
}

/// Have `a` and `b` the same characters?
pub fn str_eq(a: &str, b: &str) -> (r: bool)
    ensures
        r == (a@ == b@),
{
    let n = a.unicode_len();
    if n != b.unicode_len() {
        return false;
    }
    let r = check_lit(a, 0, b);
    proof {
        assert(a@.subrange(0, a@.len() as int) =~= a@);
    }
    r
}

} // verus!
