//! The calendar codec: pure conversions from the 1- or 2-digit year fragments
//! and 2-digit week fragments of a date code into validated calendar values.
//!
//! Century inference is centralized here. The hardware these labels come from
//! was produced 1989-2003, so a two-digit year fragment is placed in the
//! surrounding 1980s-2000s window: `80`-`99` become 1980-1999, `00`-`09`
//! become 2000-2009, and every other value is rejected as unplaceable.

use vstd::prelude::*;
use vstd::string::StrSliceExecFns;

use crate::error::{ParseError, ParseErrorView};
use crate::scan::{digit_val, is_digit};

verus! {

/// A validated year of manufacture. The representation records how the value
/// was derived, so an ambiguous fragment is never presented as a certain year.
#[derive(Clone, Copy, Debug, PartialEq, Eq, PartialOrd, Ord)]
pub enum Year {
    /// A full year; the century was inferred through the production window.
    Full(u16),
    /// Only the final digit of the year is known; the decade is ambiguous
    /// within the production window, so no century is claimed.
    Partial(u8),
}

/// The fragment is exactly two ASCII digits.
pub open spec fn is_two_digits(s: Seq<char>) -> bool {
    s.len() == 2 && is_digit(s[0]) && is_digit(s[1])
}

/// Numeric value of a two-digit fragment.
pub open spec fn two_digit_val(s: Seq<char>) -> int {
    10 * digit_val(s[0]) + digit_val(s[1])
}

/// The calendar week a two-digit fragment denotes: weeks 1 through 53 only.
pub open spec fn week2_res(s: Seq<char>) -> Option<u8> {
    if is_two_digits(s) && 1 <= two_digit_val(s) && two_digit_val(s) <= 53 {
        Some(two_digit_val(s) as u8)
    } else {
        None
    }
}

/// The full year a two-digit fragment denotes, with the century inferred
/// through the 1980-2009 production window.
pub open spec fn year2_res(s: Seq<char>) -> Option<u16> {
    if is_two_digits(s) {
        let v = two_digit_val(s);
        if 80 <= v {
            Some((1900 + v) as u16)
        } else if v <= 9 {
            Some((2000 + v) as u16)
        } else {
            None
        }
    } else {
        None
    }
}

/// The year digit a one-digit fragment denotes.
pub open spec fn year1_res(s: Seq<char>) -> Option<u8> {
    if s.len() == 1 && is_digit(s[0]) {
        Some(digit_val(s[0]) as u8)
    } else {
        None
    }
}

/// Every week the codec accepts lies in the calendar range 1-53.
pub proof fn lemma_week_range(s: Seq<char>, w: u8)
    requires
        week2_res(s) == Some(w),
    ensures
        1 <= w <= 53,
{
}

/// Every two-digit fragment the codec accepts is placed inside the fixed
/// production window, whatever the fragment was.
pub proof fn lemma_year2_window(s: Seq<char>, y: u16)
    requires
        year2_res(s) == Some(y),
    ensures
        1980 <= y <= 2009,
{
}

/// Reads a fragment of exactly two ASCII digits, yielding its numeric value.
fn scan_two_digits(text: &str) -> (r: Option<u8>)
    ensures
        match r {
            Some(v) => is_two_digits(text@) && v == two_digit_val(text@),
            None => !is_two_digits(text@),
        },
{
    if text.unicode_len() != 2 {
        return None;
    }
    let u0 = text.get_char(0) as u32;
    let u1 = text.get_char(1) as u32;
    if 48 <= u0 && u0 <= 57 && 48 <= u1 && u1 <= 57 {
        Some(((u0 - 48) * 10 + (u1 - 48)) as u8)
    } else {
        None
    }
}

/// Parses a two-digit week fragment; succeeds exactly for weeks 1-53.
pub fn week2(text: &str) -> (r: Result<u8, ParseError>)
    ensures
        match r {
            Ok(w) => week2_res(text@) == Some(w),
            Err(e) => week2_res(text@) is None && e@ == ParseErrorView::Week(text@),
        },
{
    if let Some(v) = scan_two_digits(text) {
        if 1 <= v && v <= 53 {
            return Ok(v);
        }
    }
    Err(ParseError::Week(text.to_owned()))
}

/// The shared core of [`year2`] and [`year2_u16`]: the inferred full year.
fn scan_year2(text: &str) -> (r: Option<u16>)
    ensures
        r == year2_res(text@),
{
    if let Some(v) = scan_two_digits(text) {
        if 80 <= v {
            return Some(1900 + v as u16);
        }
        if v <= 9 {
            return Some(2000 + v as u16);
        }
    }
    None
}

/// Parses a two-digit year fragment into a [`Year::Full`] value, inferring
/// the century through the production window.
pub fn year2(text: &str) -> (r: Result<Year, ParseError>)
    ensures
        match r {
            Ok(y) => year2_res(text@) matches Some(v) && y == Year::Full(v),
            Err(e) => year2_res(text@) is None && e@ == ParseErrorView::Year(text@),
        },
{
    match scan_year2(text) {
        Some(v) => Ok(Year::Full(v)),
        None => Err(ParseError::Year(text.to_owned())),
    }
}

/// The raw variant of [`year2`]: the same inferred year as a bare number, for
/// records that store the year without derivation information.
pub fn year2_u16(text: &str) -> (r: Result<u16, ParseError>)
    ensures
        match r {
            Ok(y) => year2_res(text@) == Some(y),
            Err(e) => year2_res(text@) is None && e@ == ParseErrorView::Year(text@),
        },
{
    match scan_year2(text) {
        Some(v) => Ok(v),
        None => Err(ParseError::Year(text.to_owned())),
    }
}

/// Parses a one-digit year fragment into a [`Year::Partial`] value: within
/// the production window several decades fit a single digit, so the decade is
/// left open rather than guessed.
pub fn year1(text: &str) -> (r: Result<Year, ParseError>)
    ensures
        match r {
            Ok(y) => year1_res(text@) matches Some(d) && y == Year::Partial(d),
            Err(e) => year1_res(text@) is None && e@ == ParseErrorView::Year(text@),
        },
{
    if text.unicode_len() == 1 {
        let u = text.get_char(0) as u32;
        if 48 <= u && u <= 57 {
            return Ok(Year::Partial((u - 48) as u8));
        }
    }
    Err(ParseError::Year(text.to_owned()))
}

} // verus!
