//! Decoder for mask ROM chip markings.
//!
//! Sixteen vendor grammars are tried in a fixed, author-chosen order, layered
//! from the most specific modern conventions down to looser and older ones;
//! the first grammar that structurally matches the whole input decides the
//! outcome. The order is a priority policy and must not be rearranged.

use vstd::prelude::*;
use vstd::string::StrSliceExecFns;

use crate::calendar::{week2, week2_res, year1, year1_res, year2, year2_res, Year};
use crate::error::{ParseError, ParseErrorView};
use crate::scan::{
    alnums_at, check_char, check_class_at, check_lit, check_run, class_run, digits_at, is_alnum,
    is_digit, is_upper, lit_at, str_eq, CharClass,
};
use crate::tables::Manufacturer;

verus! {

/// A decoded mask ROM marking. Grammars that carry no date or no chip type
/// leave those fields empty; an unknown manufacturer is the absence of a
/// value.
#[derive(Clone, Debug, Eq, PartialEq)]
pub struct MaskRom {
    pub rom_code: String,
    pub manufacturer: Option<Manufacturer>,
    pub chip_type: Option<String>,
    pub year: Option<Year>,
    pub week: Option<u8>,
}

/// Mathematical image of [`MaskRom`]: the same fields over character
/// sequences.
pub struct MaskRomView {
    pub rom_code: Seq<char>,
    pub manufacturer: Option<Manufacturer>,
    pub chip_type: Option<Seq<char>>,
    pub year: Option<Year>,
    pub week: Option<u8>,
}

impl View for MaskRom {
    type V = MaskRomView;

    open spec fn view(&self) -> MaskRomView {
        MaskRomView {
            rom_code: self.rom_code@,
            manufacturer: self.manufacturer,
            chip_type: match self.chip_type {
                Some(c) => Some(c@),
                None => None,
            },
            year: self.year,
            week: self.week,
        }
    }
}

// ---------------------------------------------------------------------------
// The Sharp chip-type reference table.
// ---------------------------------------------------------------------------

/// Sharp mask ROM codes whose printed form differs from the market-standard
/// part number. A miss is not an error: an unknown printed code is used
/// verbatim. Codes mapped to nothing are acknowledged ambiguity in the
/// reference data itself; the candidate families noted beside them are
/// provenance for future curation, not used in matching.
pub open spec fn sharp_alias(f: Seq<char>) -> Option<Seq<char>> {
    if f == "LH5359"@ {
        Some("LH53259"@)  // Sharp Memory Data Book 1992
    } else if f == "LH5317"@ {
        Some("LH53517"@)  // Unknown mask ROM listing scan
    } else if f == "LH531H"@ {
        Some("LH530800A"@)  // Sharp Memory Data Book 1992
    } else if f == "LH5308"@ {
        Some("LH530800"@)  // reasonable guess: unknown 1Mb JEDEC, compatible with LH530800A
    } else if f == "LH5314"@ {
        Some("LH53514"@)  // reasonable guess: unknown 512Kb JEDEC, compatible with LH53517
    } else if f == "LH5321"@ {
        Some("LH532100"@)  // reasonable guess: unknown 2Mb JEDEC
    } else if f == "LH532D"@ || f == "LH532M"@ || f == "LH532W"@ || f == "LHMN2E"@ {
        None  // unknown 2Mb JEDEC; maybe LH532100 series / LH532300 / LH532700 series
    } else if f == "LH534M"@ || f == "LH5S4M"@ || f == "LHMN4M"@ {
        None  // unknown 4Mb JEDEC; maybe LH534100 series / LH534300 series / LH534R00
    } else if f == "LH538M"@ || f == "LH538W"@ || f == "LH5S8M"@ || f == "LHMN8J"@
        || f == "LHMN8M"@ {
        None  // unknown 8Mb JEDEC; maybe LH538300/LH538400 series / LH538700 / LH538R00 series
    } else if f == "LH537M"@ {
        None  // unknown 16Mb; maybe LH5316400 / LH5316500 series / LH5316P00 series
    } else {
        None
    }
}

/// The chip type the Sharp grammar reports: the canonical alias where the
/// table knows the printed code, the printed code itself otherwise.
pub open spec fn sharp_chip(f: Seq<char>) -> Seq<char> {
    match sharp_alias(f) {
        Some(a) => a,
        None => f,
    }
}

/// Looks a printed Sharp ROM code up in the reference table.
pub fn map_sharp_mask_rom(code: &str) -> (r: Option<&'static str>)
    ensures
        match r {
            Some(a) => sharp_alias(code@) == Some(a@),
            None => sharp_alias(code@) is None,
        },
{
    if str_eq(code, "LH5359") {
        Some("LH53259")
    } else if str_eq(code, "LH5317") {
        Some("LH53517")
    } else if str_eq(code, "LH531H") {
        Some("LH530800A")
    } else if str_eq(code, "LH5308") {
        Some("LH530800")
    } else if str_eq(code, "LH5314") {
        Some("LH53514")
    } else if str_eq(code, "LH5321") {
        Some("LH532100")
    } else {
        None
    }
}

/// A printed code absent from the reference table passes through unchanged:
/// the reported chip type is the code itself, never an absence or a failure.
pub proof fn lemma_unknown_sharp_code_passes_through(f: Seq<char>)
    requires
        sharp_alias(f) is None,
    ensures
        sharp_chip(f) == f,
{
}

// ---------------------------------------------------------------------------
// Shared grammar pieces.
// ---------------------------------------------------------------------------

/// End of the cartridge ROM code that starts at `i`: `DMG-` or `CGB-`, three
/// or four alphanumerics, `-`, one digit. Three alphanumerics exactly when a
/// `-` follows them; `-` is not alphanumeric, so the split is unambiguous.
pub open spec fn rom_code_end(s: Seq<char>, i: int) -> int {
    if i + 8 <= s.len() && s[i + 7] == '-' {
        i + 9
    } else {
        i + 10
    }
}

/// A cartridge ROM code stands at `i`.
pub open spec fn rom_code_at(s: Seq<char>, i: int) -> bool {
    let e = rom_code_end(s, i);
    &&& 0 <= i
    &&& e <= s.len()
    &&& (lit_at(s, i, "DMG-"@) || lit_at(s, i, "CGB-"@))
    &&& alnums_at(s, i + 4, e - i - 6)
    &&& s[e - 2] == '-'
    &&& is_digit(s[e - 1])
}

/// Scans the cartridge ROM code at `i`, yielding its end position.
fn scan_rom_code(s: &str, i: usize) -> (r: Option<usize>)
    ensures
        match r {
            Some(e) => {
                &&& rom_code_at(s@, i as int)
                &&& e == rom_code_end(s@, i as int)
                &&& i + 9 <= e <= s@.len()
            },
            None => !rom_code_at(s@, i as int),
        },
        s@.len() <= usize::MAX,
{
    let n = s.unicode_len();
    if i >= n || n - i < 9 {
        return None;
    }
    let dash3 = s.get_char(i + 7) == '-';
    if !dash3 && n - i < 10 {
        return None;
    }
    let e: usize = if dash3 {
        i + 9
    } else {
        i + 10
    };
    if !(check_lit(s, i, "DMG-") || check_lit(s, i, "CGB-")) {
        return None;
    }
    if !check_run(s, i + 4, e - i - 6, CharClass::Alnum) {
        return None;
    }
    if !check_char(s, e - 2, '-') {
        return None;
    }
    if !check_class_at(s, e - 1, CharClass::Digit) {
        return None;
    }
    Some(e)
}

/// End of an `[A-Z][0-9]?` piece starting at `i`: the optional digit is taken
/// exactly when one stands there; every grammar follows this piece with a
/// space, so the split is unambiguous.
pub open spec fn ud_end(s: Seq<char>, i: int) -> int {
    if i + 1 < s.len() && is_digit(s[i + 1]) {
        i + 2
    } else {
        i + 1
    }
}

/// Scans an upper-case letter with an optional digit at `i`.
fn scan_ud(s: &str, i: usize) -> (r: Option<usize>)
    ensures
        match r {
            Some(q) => {
                &&& i < s@.len()
                &&& is_upper(s@[i as int])
                &&& q == ud_end(s@, i as int)
                &&& i < q <= s@.len()
            },
            None => !(i < s@.len() && is_upper(s@[i as int])),
        },
{
    if !check_class_at(s, i, CharClass::Upper) {
        return None;
    }
    if check_class_at(s, i + 1, CharClass::Digit) {
        Some(i + 2)
    } else {
        Some(i + 1)
    }
}

/// A ` X0 ` revision block: space, letter, digit, space at `i..i + 4`.
pub open spec fn rev_block_at(s: Seq<char>, i: int) -> bool {
    &&& 0 <= i
    &&& i + 4 <= s.len()
    &&& s[i] == ' '
    &&& is_upper(s[i + 1])
    &&& is_digit(s[i + 2])
    &&& s[i + 3] == ' '
}

fn check_rev_block(s: &str, i: usize) -> (b: bool)
    ensures
        b == rev_block_at(s@, i as int),
{
    check_char(s, i, ' ') && check_class_at(s, i + 1, CharClass::Upper) && check_class_at(
        s,
        i + 2,
        CharClass::Digit,
    ) && check_char(s, i + 3, ' ')
}

/// End of an `[[:alnum:]]{3,4}` piece at `i` that a `-` must follow: three
/// alphanumerics exactly when the fourth position holds the `-`.
pub open spec fn alnum34_end(s: Seq<char>, i: int) -> int {
    if i + 3 < s.len() && s[i + 3] == '-' {
        i + 3
    } else {
        i + 4
    }
}

pub open spec fn alnum34_at(s: Seq<char>, i: int) -> bool {
    let e = alnum34_end(s, i);
    alnums_at(s, i, e - i)
}

fn scan_alnum34(s: &str, i: usize) -> (r: Option<usize>)
    ensures
        match r {
            Some(e) => {
                &&& alnum34_at(s@, i as int)
                &&& e == alnum34_end(s@, i as int)
                &&& i + 3 <= e <= s@.len()
            },
            None => !alnum34_at(s@, i as int),
        },
{
    let n = s.unicode_len();
    if i >= n || n - i < 3 {
        return None;
    }
    let e: usize = if i + 3 < n && s.get_char(i + 3) == '-' {
        i + 3
    } else {
        if n - i < 4 {
            return None;
        }
        i + 4
    };
    if check_run(s, i, e - i, CharClass::Alnum) {
        Some(e)
    } else {
        None
    }
}

/// The common NEC-style closing: `-X00 ` after the chip type, then a
/// four-digit date code, a letter and a four-digit serial ending the label.
pub open spec fn nec_tail_at(s: Seq<char>, m: int) -> bool {
    &&& 0 <= m
    &&& s.len() == m + 14
    &&& s[m] == '-'
    &&& is_upper(s[m + 1])
    &&& digits_at(s, m + 2, 2)
    &&& s[m + 4] == ' '
    &&& digits_at(s, m + 5, 4)
    &&& is_upper(s[m + 9])
    &&& digits_at(s, m + 10, 4)
}

fn check_nec_tail(s: &str, m: usize) -> (b: bool)
    ensures
        b == nec_tail_at(s@, m as int),
{
    let n = s.unicode_len();
    if m > n || n - m != 14 {
        return false;
    }
    check_char(s, m, '-') && check_class_at(s, m + 1, CharClass::Upper) && check_run(
        s,
        m + 2,
        2,
        CharClass::Digit,
    ) && check_char(s, m + 4, ' ') && check_run(s, m + 5, 4, CharClass::Digit) && check_class_at(
        s,
        m + 9,
        CharClass::Upper,
    ) && check_run(s, m + 10, 4, CharClass::Digit)
}

/// The outcome of a grammar whose date code stands at `a..a + 4`: the year is
/// converted first, then the week, either of which may reject its fragment;
/// on success the record carries the given ROM code, manufacturer and chip
/// type.
pub open spec fn rom_dated(
    s: Seq<char>,
    rc: Seq<char>,
    m: Option<Manufacturer>,
    ct: Option<Seq<char>>,
    a: int,
) -> Result<MaskRomView, ParseErrorView> {
    let yf = s.subrange(a, a + 2);
    let wf = s.subrange(a + 2, a + 4);
    match year2_res(yf) {
        None => Err(ParseErrorView::Year(yf)),
        Some(y) => match week2_res(wf) {
            None => Err(ParseErrorView::Week(wf)),
            Some(w) => Ok(
                MaskRomView {
                    rom_code: rc,
                    manufacturer: m,
                    chip_type: ct,
                    year: Some(Year::Full(y)),
                    week: Some(w),
                },
            ),
        },
    }
}

/// Converts the date code at `a..a + 4` and assembles the record.
fn build_dated(
    text: &str,
    rom_from: usize,
    rom_to: usize,
    manu: Option<Manufacturer>,
    chip: Option<String>,
    a: usize,
) -> (r: Result<MaskRom, ParseError>)
    requires
        rom_from <= rom_to <= text@.len(),
        a + 4 <= text@.len(),
        a + 4 <= usize::MAX,
    ensures
        ({
            let sr = rom_dated(
                text@,
                text@.subrange(rom_from as int, rom_to as int),
                manu,
                match chip {
                    Some(c) => Some(c@),
                    None => None,
                },
                a as int,
            );
            match r {
                Ok(rec) => sr == Ok::<MaskRomView, ParseErrorView>(rec@),
                Err(e) => sr == Err::<MaskRomView, ParseErrorView>(e@),
            }
        }),
{
    let yfrag = text.substring_char(a, a + 2);
    let y = match year2(yfrag) {
        Ok(y) => y,
        Err(e) => {
            return Err(e);
        },
    };
    let wfrag = text.substring_char(a + 2, a + 4);
    let w = match week2(wfrag) {
        Ok(w) => w,
        Err(e) => {
            return Err(e);
        },
    };
    let rom_code = text.substring_char(rom_from, rom_to).to_owned();
    Ok(MaskRom { rom_code, manufacturer: manu, chip_type: chip, year: Some(y), week: Some(w) })
}

// ---------------------------------------------------------------------------
// The grammars, in priority order.
// ---------------------------------------------------------------------------

/// Grammar: Sharp ROM chip (1990+). Example:
/// `DMG-WJA-0 S LH534M05 JAPAN E1 9606 D`.
pub open spec fn sharp_shape(s: Seq<char>) -> bool {
    let e = rom_code_end(s, 0);
    let q = ud_end(s, e + 18);
    &&& rom_code_at(s, 0)
    &&& lit_at(s, e, " S LH"@)
    &&& alnums_at(s, e + 5, 4)
    &&& alnums_at(s, e + 9, 2)
    &&& lit_at(s, e + 11, " JAPAN "@)
    &&& e + 18 < s.len() && is_upper(s[e + 18])
    &&& q < s.len() && s[q] == ' '
    &&& digits_at(s, q + 1, 4)
    &&& q + 5 < s.len() && s[q + 5] == ' '
    &&& q + 6 < s.len() && is_upper(s[q + 6])
    &&& s.len() == q + 7
}

pub open spec fn sharp_outcome(s: Seq<char>) -> Result<MaskRomView, ParseErrorView> {
    let e = rom_code_end(s, 0);
    let q = ud_end(s, e + 18);
    rom_dated(
        s,
        s.subrange(0, e),
        Some(Manufacturer::Sharp),
        Some(sharp_chip(s.subrange(e + 3, e + 9))),
        q + 1,
    )
}

/// Sharp ROM chip (1990+), with the chip type resolved through the reference
/// table.
pub fn sharp(text: &str) -> (r: Option<Result<MaskRom, ParseError>>)
    ensures
        match r {
            None => !sharp_shape(text@),
            Some(Ok(rec)) => sharp_shape(text@) && sharp_outcome(text@) == Ok::<
                MaskRomView,
                ParseErrorView,
            >(rec@),
            Some(Err(err)) => sharp_shape(text@) && sharp_outcome(text@) == Err::<
                MaskRomView,
                ParseErrorView,
            >(err@),
        },
{
    let e = match scan_rom_code(text, 0) {
        Some(e) => e,
        None => {
            return None;
        },
    };
    let n = text.unicode_len();
    if n - e < 26 {
        // the shape fixes the length at q + 7, and q is at least e + 19
        return None;
    }
    if !check_lit(text, e, " S LH") {
        return None;
    }
    if !check_run(text, e + 5, 4, CharClass::Alnum) {
        return None;
    }
    if !check_run(text, e + 9, 2, CharClass::Alnum) {
        return None;
    }
    if !check_lit(text, e + 11, " JAPAN ") {
        return None;
    }
    let q = match scan_ud(text, e + 18) {
        Some(q) => q,
        None => {
            return None;
        },
    };
    if !check_char(text, q, ' ') {
        return None;
    }
    if !check_run(text, q + 1, 4, CharClass::Digit) {
        return None;
    }
    if !check_char(text, q + 5, ' ') {
        return None;
    }
    if !check_class_at(text, q + 6, CharClass::Upper) {
        return None;
    }
    if text.unicode_len() != q + 7 {
        return None;
    }
    let chip_frag = text.substring_char(e + 3, e + 9);
    let chip: String = match map_sharp_mask_rom(chip_frag) {
        Some(a) => a.to_owned(),
        None => chip_frag.to_owned(),
    };
    match build_dated(text, 0, e, Some(Manufacturer::Sharp), Some(chip), q + 1) {
        Ok(rec) => Some(Ok(rec)),
        Err(err) => Some(Err(err)),
    }
}

/// Grammar: old Sharp ROM chip with no chip type (1989-1991). Example:
/// `DMG-TRA-1 SHARP JAPAN A0 9019 D`.
pub open spec fn sharp2_shape(s: Seq<char>) -> bool {
    let q = ud_end(s, 22);
    &&& lit_at(s, 0, "DMG-"@)
    &&& alnums_at(s, 4, 3)
    &&& 7 < s.len() && s[7] == '-'
    &&& digits_at(s, 8, 1)
    &&& lit_at(s, 9, " SHARP JAPAN "@)
    &&& 22 < s.len() && is_upper(s[22])
    &&& q < s.len() && s[q] == ' '
    &&& digits_at(s, q + 1, 4)
    &&& q + 5 < s.len() && s[q + 5] == ' '
    &&& q + 6 < s.len() && is_upper(s[q + 6])
    &&& s.len() == q + 7
}

pub open spec fn sharp2_outcome(s: Seq<char>) -> Result<MaskRomView, ParseErrorView> {
    let q = ud_end(s, 22);
    rom_dated(s, s.subrange(0, 9), Some(Manufacturer::Sharp), None, q + 1)
}

/// Old Sharp ROM chip with no chip type (1989-1991).
pub fn sharp2(text: &str) -> (r: Option<Result<MaskRom, ParseError>>)
    ensures
        match r {
            None => !sharp2_shape(text@),
            Some(Ok(rec)) => sharp2_shape(text@) && sharp2_outcome(text@) == Ok::<
                MaskRomView,
                ParseErrorView,
            >(rec@),
            Some(Err(err)) => sharp2_shape(text@) && sharp2_outcome(text@) == Err::<
                MaskRomView,
                ParseErrorView,
            >(err@),
        },
{
    if !check_lit(text, 0, "DMG-") {
        return None;
    }
    if !check_run(text, 4, 3, CharClass::Alnum) {
        return None;
    }
    if !check_char(text, 7, '-') {
        return None;
    }
    if !check_run(text, 8, 1, CharClass::Digit) {
        return None;
    }
    if !check_lit(text, 9, " SHARP JAPAN ") {
        return None;
    }
    let q = match scan_ud(text, 22) {
        Some(q) => q,
        None => {
            return None;
        },
    };
    if !check_char(text, q, ' ') {
        return None;
    }
    if !check_run(text, q + 1, 4, CharClass::Digit) {
        return None;
    }
    if !check_char(text, q + 5, ' ') {
        return None;
    }
    if !check_class_at(text, q + 6, CharClass::Upper) {
        return None;
    }
    if text.unicode_len() != q + 7 {
        return None;
    }
    match build_dated(text, 0, 9, Some(Manufacturer::Sharp), None, q + 1) {
        Ok(rec) => Some(Ok(rec)),
        Err(err) => Some(Err(err)),
    }
}

/// Grammar: very old Sharp mask ROM chip (1989 and older). Example:
/// `DMG-AWA-0 SHARP JAPAN 8909 D A`.
pub open spec fn sharp3_shape(s: Seq<char>) -> bool {
    &&& lit_at(s, 0, "DMG-"@)
    &&& alnums_at(s, 4, 3)
    &&& 7 < s.len() && s[7] == '-'
    &&& digits_at(s, 8, 1)
    &&& lit_at(s, 9, " SHARP JAPAN "@)
    &&& digits_at(s, 22, 4)
    &&& 26 < s.len() && s[26] == ' '
    &&& 27 < s.len() && is_upper(s[27])
    &&& 28 < s.len() && s[28] == ' '
    &&& 29 < s.len() && is_upper(s[29])
    &&& s.len() == 30
}

pub open spec fn sharp3_outcome(s: Seq<char>) -> Result<MaskRomView, ParseErrorView> {
    rom_dated(s, s.subrange(0, 9), Some(Manufacturer::Sharp), None, 22)
}

/// Very old Sharp mask ROM chip (1989 and older).
pub fn sharp3(text: &str) -> (r: Option<Result<MaskRom, ParseError>>)
    ensures
        match r {
            None => !sharp3_shape(text@),
            Some(Ok(rec)) => sharp3_shape(text@) && sharp3_outcome(text@) == Ok::<
                MaskRomView,
                ParseErrorView,
            >(rec@),
            Some(Err(err)) => sharp3_shape(text@) && sharp3_outcome(text@) == Err::<
                MaskRomView,
                ParseErrorView,
            >(err@),
        },
{
    if text.unicode_len() != 30 {
        return None;
    }
    if !check_lit(text, 0, "DMG-") {
        return None;
    }
    if !check_run(text, 4, 3, CharClass::Alnum) {
        return None;
    }
    if !check_char(text, 7, '-') {
        return None;
    }
    if !check_run(text, 8, 1, CharClass::Digit) {
        return None;
    }
    if !check_lit(text, 9, " SHARP JAPAN ") {
        return None;
    }
    if !check_run(text, 22, 4, CharClass::Digit) {
        return None;
    }
    if !check_char(text, 26, ' ') {
        return None;
    }
    if !check_class_at(text, 27, CharClass::Upper) {
        return None;
    }
    if !check_char(text, 28, ' ') {
        return None;
    }
    if !check_class_at(text, 29, CharClass::Upper) {
        return None;
    }
    match build_dated(text, 0, 9, Some(Manufacturer::Sharp), None, 22) {
        Ok(rec) => Some(Ok(rec)),
        Err(err) => Some(Err(err)),
    }
}

/// End of a Macronix `MX23C` chip type starting at `c0`: four digits, `-`,
/// two digits, then an optional letter and an optional digit, each taken
/// exactly when present; a space always follows, so the split is unambiguous.
pub open spec fn mx_chip_end(s: Seq<char>, c0: int) -> int {
    let u = if c0 + 12 < s.len() && is_upper(s[c0 + 12]) {
        c0 + 13
    } else {
        c0 + 12
    };
    if u < s.len() && is_digit(s[u]) {
        u + 1
    } else {
        u
    }
}

pub open spec fn mx_chip_at(s: Seq<char>, c0: int) -> bool {
    &&& lit_at(s, c0, "MX23C"@)
    &&& digits_at(s, c0 + 5, 4)
    &&& c0 + 9 < s.len() && s[c0 + 9] == '-'
    &&& digits_at(s, c0 + 10, 2)
}

fn scan_mx_chip(s: &str, c0: usize) -> (r: Option<usize>)
    ensures
        match r {
            Some(b) => {
                &&& mx_chip_at(s@, c0 as int)
                &&& b == mx_chip_end(s@, c0 as int)
                &&& c0 + 12 <= b <= s@.len()
            },
            None => !mx_chip_at(s@, c0 as int),
        },
        s@.len() <= usize::MAX,
{
    let n = s.unicode_len();
    if c0 > n || n - c0 < 12 {
        return None;
    }
    if !check_lit(s, c0, "MX23C") {
        return None;
    }
    if !check_run(s, c0 + 5, 4, CharClass::Digit) {
        return None;
    }
    if !check_char(s, c0 + 9, '-') {
        return None;
    }
    if !check_run(s, c0 + 10, 2, CharClass::Digit) {
        return None;
    }
    let u: usize = if check_class_at(s, c0 + 12, CharClass::Upper) {
        c0 + 13
    } else {
        c0 + 12
    };
    let b: usize = if check_class_at(s, u, CharClass::Digit) {
        u + 1
    } else {
        u
    };
    Some(b)
}

/// A single-digit lot group follows the chip type at `b + 1`.
pub open spec fn mac_opt1(s: Seq<char>, b: int) -> bool {
    b + 1 < s.len() && is_digit(s[b + 1])
}

/// Start of the ROM code: past the optional single-digit lot group.
pub open spec fn mac_rom_start(s: Seq<char>, b: int) -> int {
    if mac_opt1(s, b) {
        b + 3
    } else {
        b + 1
    }
}

/// A two-digit group follows the ROM code at `e + 1`.
pub open spec fn mac_opt2(s: Seq<char>, e: int) -> bool {
    e + 1 < s.len() && is_digit(s[e + 1])
}

/// Start of the revision letter: past the optional two-digit group.
pub open spec fn mac_group_end(s: Seq<char>, e: int) -> int {
    if mac_opt2(s, e) {
        e + 4
    } else {
        e + 1
    }
}

/// Grammar: Macronix MX23C mask ROM chip (1999+). Example:
/// `M004523-M MX23C3203-11A2 CGB-B82J-0 02 H2 2D224301`.
pub open spec fn macronix_shape(s: Seq<char>) -> bool {
    let b = mx_chip_end(s, 10);
    let p = mac_rom_start(s, b);
    let e = rom_code_end(s, p);
    let g = mac_group_end(s, e);
    let h = ud_end(s, g);
    &&& 0 < s.len() && is_upper(s[0])
    &&& digits_at(s, 1, 6)
    &&& lit_at(s, 7, "-M "@)
    &&& mx_chip_at(s, 10)
    &&& b < s.len() && s[b] == ' '
    &&& (mac_opt1(s, b) ==> b + 2 < s.len() && s[b + 2] == ' ')
    &&& rom_code_at(s, p)
    &&& e < s.len() && s[e] == ' '
    &&& (mac_opt2(s, e) ==> e + 3 < s.len() && is_digit(s[e + 2]) && s[e + 3] == ' ')
    &&& g < s.len() && is_upper(s[g])
    &&& h < s.len() && s[h] == ' '
    &&& alnums_at(s, h + 1, s.len() - h - 1)
    &&& 8 <= s.len() - h - 1 <= 10
}

pub open spec fn macronix_outcome(s: Seq<char>) -> Result<MaskRomView, ParseErrorView> {
    let b = mx_chip_end(s, 10);
    let p = mac_rom_start(s, b);
    let e = rom_code_end(s, p);
    rom_dated(
        s,
        s.subrange(p, e),
        Some(Manufacturer::Macronix),
        Some(s.subrange(10, b)),
        1,
    )
}

/// Macronix MX23C mask ROM chip (1999+).
pub fn macronix(text: &str) -> (r: Option<Result<MaskRom, ParseError>>)
    ensures
        match r {
            None => !macronix_shape(text@),
            Some(Ok(rec)) => macronix_shape(text@) && macronix_outcome(text@) == Ok::<
                MaskRomView,
                ParseErrorView,
            >(rec@),
            Some(Err(err)) => macronix_shape(text@) && macronix_outcome(text@) == Err::<
                MaskRomView,
                ParseErrorView,
            >(err@),
        },
{
    if !check_class_at(text, 0, CharClass::Upper) {
        return None;
    }
    if !check_run(text, 1, 6, CharClass::Digit) {
        return None;
    }
    if !check_lit(text, 7, "-M ") {
        return None;
    }
    let b = match scan_mx_chip(text, 10) {
        Some(b) => b,
        None => {
            return None;
        },
    };
    if !check_char(text, b, ' ') {
        return None;
    }
    let p: usize = if check_class_at(text, b + 1, CharClass::Digit) {
        if !check_char(text, b + 2, ' ') {
            return None;
        }
        b + 3
    } else {
        b + 1
    };
    let e = match scan_rom_code(text, p) {
        Some(e) => e,
        None => {
            return None;
        },
    };
    if !check_char(text, e, ' ') {
        return None;
    }
    let g: usize = if check_class_at(text, e + 1, CharClass::Digit) {
        if !check_class_at(text, e + 2, CharClass::Digit) {
            return None;
        }
        if !check_char(text, e + 3, ' ') {
            return None;
        }
        e + 4
    } else {
        e + 1
    };
    let h = match scan_ud(text, g) {
        Some(h) => h,
        None => {
            return None;
        },
    };
    if !check_char(text, h, ' ') {
        return None;
    }
    let n = text.unicode_len();
    if n - h - 1 < 8 || n - h - 1 > 10 {
        return None;
    }
    if !check_run(text, h + 1, n - (h + 1), CharClass::Alnum) {
        return None;
    }
    let chip = text.substring_char(10, b).to_owned();
    match build_dated(text, p, e, Some(Manufacturer::Macronix), Some(chip), 1) {
        Ok(rec) => Some(Ok(rec)),
        Err(err) => Some(Err(err)),
    }
}

/// Grammar: Macronix MX23C mask ROM chip (pre-1999). Example:
/// `C9745-M MX23C4002-20 DMG-APOJ-0 E1 43824C`.
pub open spec fn macronix2_shape(s: Seq<char>) -> bool {
    let b = mx_chip_end(s, 8);
    let e = rom_code_end(s, b + 1);
    let h = ud_end(s, e + 1);
    &&& 0 < s.len() && is_upper(s[0])
    &&& digits_at(s, 1, 4)
    &&& lit_at(s, 5, "-M "@)
    &&& mx_chip_at(s, 8)
    &&& b < s.len() && s[b] == ' '
    &&& rom_code_at(s, b + 1)
    &&& e < s.len() && s[e] == ' '
    &&& e + 1 < s.len() && is_upper(s[e + 1])
    &&& h < s.len() && s[h] == ' '
    &&& alnums_at(s, h + 1, 6)
    &&& s.len() == h + 7
}

pub open spec fn macronix2_outcome(s: Seq<char>) -> Result<MaskRomView, ParseErrorView> {
    let b = mx_chip_end(s, 8);
    let e = rom_code_end(s, b + 1);
    rom_dated(
        s,
        s.subrange(b + 1, e),
        Some(Manufacturer::Macronix),
        Some(s.subrange(8, b)),
        1,
    )
}

/// Macronix MX23C mask ROM chip (pre-1999).
pub fn macronix2(text: &str) -> (r: Option<Result<MaskRom, ParseError>>)
    ensures
        match r {
            None => !macronix2_shape(text@),
            Some(Ok(rec)) => macronix2_shape(text@) && macronix2_outcome(text@) == Ok::<
                MaskRomView,
                ParseErrorView,
            >(rec@),
            Some(Err(err)) => macronix2_shape(text@) && macronix2_outcome(text@) == Err::<
                MaskRomView,
                ParseErrorView,
            >(err@),
        },
{
    if !check_class_at(text, 0, CharClass::Upper) {
        return None;
    }
    if !check_run(text, 1, 4, CharClass::Digit) {
        return None;
    }
    if !check_lit(text, 5, "-M ") {
        return None;
    }
    let b = match scan_mx_chip(text, 8) {
        Some(b) => b,
        None => {
            return None;
        },
    };
    if !check_char(text, b, ' ') {
        return None;
    }
    let e = match scan_rom_code(text, b + 1) {
        Some(e) => e,
        None => {
            return None;
        },
    };
    if !check_char(text, e, ' ') {
        return None;
    }
    let h = match scan_ud(text, e + 1) {
        Some(h) => h,
        None => {
            return None;
        },
    };
    if !check_char(text, h, ' ') {
        return None;
    }
    if !check_run(text, h + 1, 6, CharClass::Alnum) {
        return None;
    }
    if text.unicode_len() != h + 7 {
        return None;
    }
    let chip = text.substring_char(8, b).to_owned();
    match build_dated(text, b + 1, e, Some(Manufacturer::Macronix), Some(chip), 1) {
        Ok(rec) => Some(Ok(rec)),
        Err(err) => Some(Err(err)),
    }
}

/// Shape shared by the two OKI grammars; `part` is the printed part-number
/// literal with its trailing `-`. Example:
/// `DMG-AM6J-0 F1 M538011E-36 9085401`.
pub open spec fn oki_shape(s: Seq<char>, part: Seq<char>) -> bool {
    let e = rom_code_end(s, 0);
    &&& rom_code_at(s, 0)
    &&& rev_block_at(s, e)
    &&& lit_at(s, e + 4, part)
    &&& alnums_at(s, e + 13, 2)
    &&& e + 15 < s.len() && s[e + 15] == ' '
    &&& digits_at(s, e + 16, 6)
    &&& e + 22 < s.len() && is_alnum(s[e + 22])
    &&& s.len() == e + 23
}

/// Outcome shared by the two OKI grammars: a one-digit year code, so only the
/// final year digit is known, then the week.
pub open spec fn oki_outcome(s: Seq<char>, chip: Seq<char>) -> Result<
    MaskRomView,
    ParseErrorView,
> {
    let e = rom_code_end(s, 0);
    let yf = s.subrange(e + 16, e + 17);
    let wf = s.subrange(e + 17, e + 19);
    match year1_res(yf) {
        None => Err(ParseErrorView::Year(yf)),
        Some(d) => match week2_res(wf) {
            None => Err(ParseErrorView::Week(wf)),
            Some(w) => Ok(
                MaskRomView {
                    rom_code: s.subrange(0, e),
                    manufacturer: Some(Manufacturer::Oki),
                    chip_type: Some(chip),
                    year: Some(Year::Partial(d)),
                    week: Some(w),
                },
            ),
        },
    }
}

/// The matcher shared by the two OKI grammars: `part` is the printed
/// part-number literal with its trailing `-`, `chip` the reported chip type.
fn oki_match(text: &str, part: &str, chip: &str) -> (r: Option<Result<MaskRom, ParseError>>)
    ensures
        match r {
            None => !oki_shape(text@, part@),
            Some(Ok(rec)) => oki_shape(text@, part@) && oki_outcome(text@, chip@) == Ok::<
                MaskRomView,
                ParseErrorView,
            >(rec@),
            Some(Err(err)) => oki_shape(text@, part@) && oki_outcome(text@, chip@) == Err::<
                MaskRomView,
                ParseErrorView,
            >(err@),
        },
{
    let e = match scan_rom_code(text, 0) {
        Some(e) => e,
        None => {
            return None;
        },
    };
    let n = text.unicode_len();
    if n - e < 23 {
        // the shape fixes the length at e + 23
        return None;
    }
    if !check_rev_block(text, e) {
        return None;
    }
    if !check_lit(text, e + 4, part) {
        return None;
    }
    if !check_run(text, e + 13, 2, CharClass::Alnum) {
        return None;
    }
    if !check_char(text, e + 15, ' ') {
        return None;
    }
    if !check_run(text, e + 16, 6, CharClass::Digit) {
        return None;
    }
    if !check_class_at(text, e + 22, CharClass::Alnum) {
        return None;
    }
    if text.unicode_len() != e + 23 {
        return None;
    }
    let yfrag = text.substring_char(e + 16, e + 17);
    let y = match year1(yfrag) {
        Ok(y) => y,
        Err(err) => {
            return Some(Err(err));
        },
    };
    let wfrag = text.substring_char(e + 17, e + 19);
    let w = match week2(wfrag) {
        Ok(w) => w,
        Err(err) => {
            return Some(Err(err));
        },
    };
    let rom_code = text.substring_char(0, e).to_owned();
    Some(
        Ok(
            MaskRom {
                rom_code,
                manufacturer: Some(Manufacturer::Oki),
                chip_type: Some(chip.to_owned()),
                year: Some(y),
                week: Some(w),
            },
        ),
    )
}

pub open spec fn oki_msm538011e_shape(s: Seq<char>) -> bool {
    oki_shape(s, "M538011E-"@)
}

pub open spec fn oki_msm538011e_outcome(s: Seq<char>) -> Result<MaskRomView, ParseErrorView> {
    oki_outcome(s, "MSM538011E"@)
}

/// OKI Semiconductor MSM538011E mask ROM.
pub fn oki_msm538011e(text: &str) -> (r: Option<Result<MaskRom, ParseError>>)
    ensures
        match r {
            None => !oki_msm538011e_shape(text@),
            Some(Ok(rec)) => oki_msm538011e_shape(text@) && oki_msm538011e_outcome(text@) == Ok::<
                MaskRomView,
                ParseErrorView,
            >(rec@),
            Some(Err(err)) => oki_msm538011e_shape(text@) && oki_msm538011e_outcome(text@)
                == Err::<MaskRomView, ParseErrorView>(err@),
        },
{
    oki_match(text, "M538011E-", "MSM538011E")
}

pub open spec fn oki_mr531614g_shape(s: Seq<char>) -> bool {
    oki_shape(s, "R531614G-"@)
}

pub open spec fn oki_mr531614g_outcome(s: Seq<char>) -> Result<MaskRomView, ParseErrorView> {
    oki_outcome(s, "MR531614G"@)
}

/// OKI Semiconductor MR531614G mask ROM.
pub fn oki_mr531614g(text: &str) -> (r: Option<Result<MaskRom, ParseError>>)
    ensures
        match r {
            None => !oki_mr531614g_shape(text@),
            Some(Ok(rec)) => oki_mr531614g_shape(text@) && oki_mr531614g_outcome(text@) == Ok::<
                MaskRomView,
                ParseErrorView,
            >(rec@),
            Some(Err(err)) => oki_mr531614g_shape(text@) && oki_mr531614g_outcome(text@) == Err::<
                MaskRomView,
                ParseErrorView,
            >(err@),
        },
{
    oki_match(text, "R531614G-", "MR531614G")
}

/// A NEC-style chip type at `c0`: the head literal, four digits, then three
/// or four alphanumerics that a `-` must follow.
pub open spec fn nec_chip_at(s: Seq<char>, c0: int, head: Seq<char>) -> bool {
    &&& lit_at(s, c0, head)
    &&& digits_at(s, c0 + head.len(), 4)
    &&& alnum34_at(s, c0 + head.len() + 4)
}

pub open spec fn nec_chip_end(s: Seq<char>, c0: int, head: Seq<char>) -> int {
    alnum34_end(s, c0 + head.len() + 4)
}

/// Shape shared by the NEC-labeled grammars: an optional vendor prefix, the
/// ROM code, a revision block, a chip type, and the NEC closing tail.
pub open spec fn nec_family_shape(s: Seq<char>, pre: Seq<char>, head: Seq<char>) -> bool {
    let e = rom_code_end(s, pre.len() as int);
    let m = nec_chip_end(s, e + 4, head);
    &&& lit_at(s, 0, pre)
    &&& rom_code_at(s, pre.len() as int)
    &&& rev_block_at(s, e)
    &&& nec_chip_at(s, e + 4, head)
    &&& nec_tail_at(s, m)
}

pub open spec fn nec_family_outcome(
    s: Seq<char>,
    pre: Seq<char>,
    head: Seq<char>,
    manu: Option<Manufacturer>,
) -> Result<MaskRomView, ParseErrorView> {
    let e = rom_code_end(s, pre.len() as int);
    let m = nec_chip_end(s, e + 4, head);
    rom_dated(s, s.subrange(pre.len() as int, e), manu, Some(s.subrange(e + 4, m)), m + 5)
}

/// The matcher shared by the NEC-labeled grammars.
fn nec_family_match(text: &str, pre: &str, head: &str, manu: Option<Manufacturer>) -> (r: Option<
    Result<MaskRom, ParseError>,
>)
    ensures
        match r {
            None => !nec_family_shape(text@, pre@, head@),
            Some(Ok(rec)) => nec_family_shape(text@, pre@, head@) && nec_family_outcome(
                text@,
                pre@,
                head@,
                manu,
            ) == Ok::<MaskRomView, ParseErrorView>(rec@),
            Some(Err(err)) => nec_family_shape(text@, pre@, head@) && nec_family_outcome(
                text@,
                pre@,
                head@,
                manu,
            ) == Err::<MaskRomView, ParseErrorView>(err@),
        },
{
    if !check_lit(text, 0, pre) {
        return None;
    }
    let r0 = pre.unicode_len();
    let e = match scan_rom_code(text, r0) {
        Some(e) => e,
        None => {
            return None;
        },
    };
    if !check_rev_block(text, e) {
        return None;
    }
    if !check_lit(text, e + 4, head) {
        return None;
    }
    let hl = head.unicode_len();
    if !check_run(text, e + 4 + hl, 4, CharClass::Digit) {
        return None;
    }
    let m = match scan_alnum34(text, e + 4 + hl + 4) {
        Some(m) => m,
        None => {
            return None;
        },
    };
    if !check_nec_tail(text, m) {
        return None;
    }
    let chip = text.substring_char(e + 4, m).to_owned();
    match build_dated(text, r0, e, manu, Some(chip), m + 5) {
        Ok(rec) => Some(Ok(rec)),
        Err(err) => Some(Err(err)),
    }
}

pub open spec fn nec_shape(s: Seq<char>) -> bool {
    nec_family_shape(s, "NEC JAPAN "@, "UPD23C"@)
}

pub open spec fn nec_outcome(s: Seq<char>) -> Result<MaskRomView, ParseErrorView> {
    nec_family_outcome(s, "NEC JAPAN "@, "UPD23C"@, Some(Manufacturer::Nec))
}

/// NEC mask ROM. Example: `NEC JAPAN DMG-SAJ-0 C1 UPD23C1001EGW-J01 9010E9702`.
pub fn nec(text: &str) -> (r: Option<Result<MaskRom, ParseError>>)
    ensures
        match r {
            None => !nec_shape(text@),
            Some(Ok(rec)) => nec_shape(text@) && nec_outcome(text@) == Ok::<
                MaskRomView,
                ParseErrorView,
            >(rec@),
            Some(Err(err)) => nec_shape(text@) && nec_outcome(text@) == Err::<
                MaskRomView,
                ParseErrorView,
            >(err@),
        },
{
    nec_family_match(text, "NEC JAPAN ", "UPD23C", Some(Manufacturer::Nec))
}

pub open spec fn nec_like_shape(s: Seq<char>) -> bool {
    nec_family_shape(s, ""@, "N-"@)
}

pub open spec fn nec_like_outcome(s: Seq<char>) -> Result<MaskRomView, ParseErrorView> {
    nec_family_outcome(s, ""@, "N-"@, None)
}

/// Unknown mask ROM with NEC-like labeling; no manufacturer is claimed.
/// Example: `DMG-ZLE-0 E1 N-4001EAGW-J14 9329X7007`.
pub fn nec_like(text: &str) -> (r: Option<Result<MaskRom, ParseError>>)
    ensures
        match r {
            None => !nec_like_shape(text@),
            Some(Ok(rec)) => nec_like_shape(text@) && nec_like_outcome(text@) == Ok::<
                MaskRomView,
                ParseErrorView,
            >(rec@),
            Some(Err(err)) => nec_like_shape(text@) && nec_like_outcome(text@) == Err::<
                MaskRomView,
                ParseErrorView,
            >(err@),
        },
{
    nec_family_match(text, "", "N-", None)
}

pub open spec fn at_t_shape(s: Seq<char>) -> bool {
    nec_family_shape(s, "Ⓜ AT&T JAPAN "@, "23C"@)
}

pub open spec fn at_t_outcome(s: Seq<char>) -> Result<MaskRomView, ParseErrorView> {
    nec_family_outcome(s, "Ⓜ AT&T JAPAN "@, "23C"@, Some(Manufacturer::AtT))
}

/// AT&T mask ROM. Example: `Ⓜ AT&T JAPAN DMG-Q6E-0 C1 23C1001EAGW-K37 9351E9005`.
pub fn at_t(text: &str) -> (r: Option<Result<MaskRom, ParseError>>)
    ensures
        match r {
            None => !at_t_shape(text@),
            Some(Ok(rec)) => at_t_shape(text@) && at_t_outcome(text@) == Ok::<
                MaskRomView,
                ParseErrorView,
            >(rec@),
            Some(Err(err)) => at_t_shape(text@) && at_t_outcome(text@) == Err::<
                MaskRomView,
                ParseErrorView,
            >(err@),
        },
{
    nec_family_match(text, "Ⓜ AT&T JAPAN ", "23C", Some(Manufacturer::AtT))
}

pub open spec fn smsc_shape(s: Seq<char>) -> bool {
    nec_family_shape(s, "STANDARD MICRO "@, "23C"@)
}

pub open spec fn smsc_outcome(s: Seq<char>) -> Result<MaskRomView, ParseErrorView> {
    nec_family_outcome(s, "STANDARD MICRO "@, "23C"@, Some(Manufacturer::Smsc))
}

/// Standard Microsystems mask ROM.
/// Example: `STANDARD MICRO DMG-BIA-0 C1 23C1001EGW-J61 9140E9017`.
pub fn smsc(text: &str) -> (r: Option<Result<MaskRom, ParseError>>)
    ensures
        match r {
            None => !smsc_shape(text@),
            Some(Ok(rec)) => smsc_shape(text@) && smsc_outcome(text@) == Ok::<
                MaskRomView,
                ParseErrorView,
            >(rec@),
            Some(Err(err)) => smsc_shape(text@) && smsc_outcome(text@) == Err::<
                MaskRomView,
                ParseErrorView,
            >(err@),
        },
{
    nec_family_match(text, "STANDARD MICRO ", "23C", Some(Manufacturer::Smsc))
}

/// Grammar: glop-top mask ROM, probably manufactured by Sharp, though no
/// manufacturer is claimed. Example: `LR0G150 DMG-TRA-1 97141`.
pub open spec fn glop_top_shape(s: Seq<char>) -> bool {
    let e = rom_code_end(s, 8);
    &&& lit_at(s, 0, "LR0G150 "@)
    &&& rom_code_at(s, 8)
    &&& e < s.len() && s[e] == ' '
    &&& digits_at(s, e + 1, 5)
    &&& s.len() == e + 6
}

pub open spec fn glop_top_outcome(s: Seq<char>) -> Result<MaskRomView, ParseErrorView> {
    let e = rom_code_end(s, 8);
    rom_dated(s, s.subrange(8, e), None, Some("LR0G150"@), e + 1)
}

/// Glop-top mask ROM.
pub fn glop_top(text: &str) -> (r: Option<Result<MaskRom, ParseError>>)
    ensures
        match r {
            None => !glop_top_shape(text@),
            Some(Ok(rec)) => glop_top_shape(text@) && glop_top_outcome(text@) == Ok::<
                MaskRomView,
                ParseErrorView,
            >(rec@),
            Some(Err(err)) => glop_top_shape(text@) && glop_top_outcome(text@) == Err::<
                MaskRomView,
                ParseErrorView,
            >(err@),
        },
{
    if !check_lit(text, 0, "LR0G150 ") {
        return None;
    }
    let e = match scan_rom_code(text, 8) {
        Some(e) => e,
        None => {
            return None;
        },
    };
    if !check_char(text, e, ' ') {
        return None;
    }
    if !check_run(text, e + 1, 5, CharClass::Digit) {
        return None;
    }
    if text.unicode_len() != e + 6 {
        return None;
    }
    proof {
        reveal_strlit("LR0G150 ");
        reveal_strlit("LR0G150");
        assert(text@.subrange(0, 7) =~= "LR0G150"@);
    }
    let chip = text.substring_char(0, 7).to_owned();
    match build_dated(text, 8, e, None, Some(chip), e + 1) {
        Ok(rec) => Some(Ok(rec)),
        Err(err) => Some(Err(err)),
    }
}

/// Grammar: Toshiba mask ROM. Example:
/// `TOSHIBA 9136EAI TC531001CF DMG-NCE-0 C1 J541 JAPAN`.
pub open spec fn toshiba_shape(s: Seq<char>) -> bool {
    let e = rom_code_end(s, 27);
    &&& lit_at(s, 0, "TOSHIBA "@)
    &&& digits_at(s, 8, 4)
    &&& lit_at(s, 12, "EAI TC53"@)
    &&& digits_at(s, 20, 4)
    &&& class_run(s, 24, 2, CharClass::Upper)
    &&& 26 < s.len() && s[26] == ' '
    &&& rom_code_at(s, 27)
    &&& rev_block_at(s, e)
    &&& e + 4 < s.len() && is_upper(s[e + 4])
    &&& digits_at(s, e + 5, 3)
    &&& lit_at(s, e + 8, " JAPAN"@)
    &&& s.len() == e + 14
}

pub open spec fn toshiba_outcome(s: Seq<char>) -> Result<MaskRomView, ParseErrorView> {
    let e = rom_code_end(s, 27);
    rom_dated(s, s.subrange(27, e), Some(Manufacturer::Toshiba), Some(s.subrange(16, 26)), 8)
}

/// Toshiba mask ROM.
pub fn toshiba(text: &str) -> (r: Option<Result<MaskRom, ParseError>>)
    ensures
        match r {
            None => !toshiba_shape(text@),
            Some(Ok(rec)) => toshiba_shape(text@) && toshiba_outcome(text@) == Ok::<
                MaskRomView,
                ParseErrorView,
            >(rec@),
            Some(Err(err)) => toshiba_shape(text@) && toshiba_outcome(text@) == Err::<
                MaskRomView,
                ParseErrorView,
            >(err@),
        },
{
    if !check_lit(text, 0, "TOSHIBA ") {
        return None;
    }
    if !check_run(text, 8, 4, CharClass::Digit) {
        return None;
    }
    if !check_lit(text, 12, "EAI TC53") {
        return None;
    }
    if !check_run(text, 20, 4, CharClass::Digit) {
        return None;
    }
    if !check_run(text, 24, 2, CharClass::Upper) {
        return None;
    }
    if !check_char(text, 26, ' ') {
        return None;
    }
    let e = match scan_rom_code(text, 27) {
        Some(e) => e,
        None => {
            return None;
        },
    };
    let n = text.unicode_len();
    if n - e < 14 {
        // the shape fixes the length at e + 14
        return None;
    }
    if !check_rev_block(text, e) {
        return None;
    }
    if !check_class_at(text, e + 4, CharClass::Upper) {
        return None;
    }
    if !check_run(text, e + 5, 3, CharClass::Digit) {
        return None;
    }
    if !check_lit(text, e + 8, " JAPAN") {
        return None;
    }
    if text.unicode_len() != e + 14 {
        return None;
    }
    let chip = text.substring_char(16, 26).to_owned();
    match build_dated(text, 27, e, Some(Manufacturer::Toshiba), Some(chip), 8) {
        Ok(rec) => Some(Ok(rec)),
        Err(err) => Some(Err(err)),
    }
}

/// End of the digit run of a Samsung `KM23C` chip type: four or five digits,
/// five exactly when position 13 still holds a digit.
pub open spec fn km_end(s: Seq<char>) -> int {
    if 13 < s.len() && is_digit(s[13]) {
        14
    } else {
        13
    }
}

/// End of a Samsung chip type: one or two final letters, two exactly when a
/// second one stands there; a space always follows.
pub open spec fn km_chip_end(s: Seq<char>) -> int {
    let m = km_end(s);
    if m + 1 < s.len() && is_upper(s[m + 1]) {
        m + 2
    } else {
        m + 1
    }
}

/// The common Samsung front: `SEC `, the chip type, a space.
pub open spec fn km_front(s: Seq<char>) -> bool {
    let m = km_end(s);
    let u = km_chip_end(s);
    &&& lit_at(s, 0, "SEC KM23C"@)
    &&& digits_at(s, 9, m - 9)
    &&& m < s.len() && is_upper(s[m])
    &&& u < s.len() && s[u] == ' '
}

fn scan_km_front(text: &str) -> (r: Option<usize>)
    ensures
        match r {
            Some(u) => {
                &&& km_front(text@)
                &&& u == km_chip_end(text@)
                &&& 9 <= u < text@.len()
            },
            None => !km_front(text@),
        },
{
    if !check_lit(text, 0, "SEC KM23C") {
        return None;
    }
    let m: usize = if check_class_at(text, 13, CharClass::Digit) {
        14
    } else {
        13
    };
    if !check_run(text, 9, m - 9, CharClass::Digit) {
        return None;
    }
    if !check_class_at(text, m, CharClass::Upper) {
        return None;
    }
    let u: usize = if check_class_at(text, m + 1, CharClass::Upper) {
        m + 2
    } else {
        m + 1
    };
    if !check_char(text, u, ' ') {
        return None;
    }
    Some(u)
}

/// Grammar: Samsung mask ROM. Example:
/// `SEC KM23C16120DT CGB-BHMJ-0 G2 K3N5C317GD`. Samsung labels carry no date.
pub open spec fn samsung_shape(s: Seq<char>) -> bool {
    let u = km_chip_end(s);
    let e = rom_code_end(s, u + 1);
    &&& km_front(s)
    &&& rom_code_at(s, u + 1)
    &&& rev_block_at(s, e)
    &&& alnums_at(s, e + 4, 10)
    &&& s.len() == e + 14
}

pub open spec fn samsung_outcome(s: Seq<char>) -> Result<MaskRomView, ParseErrorView> {
    let u = km_chip_end(s);
    let e = rom_code_end(s, u + 1);
    Ok(
        MaskRomView {
            rom_code: s.subrange(u + 1, e),
            manufacturer: Some(Manufacturer::Samsung),
            chip_type: Some(s.subrange(4, u)),
            year: None,
            week: None,
        },
    )
}

/// Samsung mask ROM.
pub fn samsung(text: &str) -> (r: Option<Result<MaskRom, ParseError>>)
    ensures
        match r {
            None => !samsung_shape(text@),
            Some(Ok(rec)) => samsung_shape(text@) && samsung_outcome(text@) == Ok::<
                MaskRomView,
                ParseErrorView,
            >(rec@),
            Some(Err(err)) => samsung_shape(text@) && samsung_outcome(text@) == Err::<
                MaskRomView,
                ParseErrorView,
            >(err@),
        },
{
    let u = match scan_km_front(text) {
        Some(u) => u,
        None => {
            return None;
        },
    };
    let e = match scan_rom_code(text, u + 1) {
        Some(e) => e,
        None => {
            return None;
        },
    };
    if !check_rev_block(text, e) {
        return None;
    }
    if !check_run(text, e + 4, 10, CharClass::Alnum) {
        return None;
    }
    if text.unicode_len() != e + 14 {
        return None;
    }
    let rom_code = text.substring_char(u + 1, e).to_owned();
    let chip = text.substring_char(4, u).to_owned();
    Some(
        Ok(
            MaskRom {
                rom_code,
                manufacturer: Some(Manufacturer::Samsung),
                chip_type: Some(chip),
                year: None,
                week: None,
            },
        ),
    )
}

/// Grammar: old Samsung mask ROM. Example:
/// `SEC KM23C8000DG DMG-AAUJ-1 F1 KFX331U`. These labels carry no date.
pub open spec fn samsung2_shape(s: Seq<char>) -> bool {
    let u = km_chip_end(s);
    let e = rom_code_end(s, u + 1);
    &&& km_front(s)
    &&& rom_code_at(s, u + 1)
    &&& rev_block_at(s, e)
    &&& lit_at(s, e + 4, "KF"@)
    &&& alnums_at(s, e + 6, 4)
    &&& e + 10 < s.len() && is_upper(s[e + 10])
    &&& s.len() == e + 11
}

pub open spec fn samsung2_outcome(s: Seq<char>) -> Result<MaskRomView, ParseErrorView> {
    let u = km_chip_end(s);
    let e = rom_code_end(s, u + 1);
    Ok(
        MaskRomView {
            rom_code: s.subrange(u + 1, e),
            manufacturer: Some(Manufacturer::Samsung),
            chip_type: Some(s.subrange(4, u)),
            year: None,
            week: None,
        },
    )
}

/// Old Samsung mask ROM.
pub fn samsung2(text: &str) -> (r: Option<Result<MaskRom, ParseError>>)
    ensures
        match r {
            None => !samsung2_shape(text@),
            Some(Ok(rec)) => samsung2_shape(text@) && samsung2_outcome(text@) == Ok::<
                MaskRomView,
                ParseErrorView,
            >(rec@),
            Some(Err(err)) => samsung2_shape(text@) && samsung2_outcome(text@) == Err::<
                MaskRomView,
                ParseErrorView,
            >(err@),
        },
{
    let u = match scan_km_front(text) {
        Some(u) => u,
        None => {
            return None;
        },
    };
    let e = match scan_rom_code(text, u + 1) {
        Some(e) => e,
        None => {
            return None;
        },
    };
    let n = text.unicode_len();
    if n - e < 11 {
        // the shape fixes the length at e + 11
        return None;
    }
    if !check_rev_block(text, e) {
        return None;
    }
    if !check_lit(text, e + 4, "KF") {
        return None;
    }
    if !check_run(text, e + 6, 4, CharClass::Alnum) {
        return None;
    }
    if !check_class_at(text, e + 10, CharClass::Upper) {
        return None;
    }
    if text.unicode_len() != e + 11 {
        return None;
    }
    let rom_code = text.substring_char(u + 1, e).to_owned();
    let chip = text.substring_char(4, u).to_owned();
    Some(
        Ok(
            MaskRom {
                rom_code,
                manufacturer: Some(Manufacturer::Samsung),
                chip_type: Some(chip),
                year: None,
                week: None,
            },
        ),
    )
}

/// Grammar: Fujitsu mask ROM. Example: `JAPAN DMG-GKX-0 D1 1P0 AK 9328 R09`.
pub open spec fn fujitsu_shape(s: Seq<char>) -> bool {
    let e = rom_code_end(s, 6);
    &&& lit_at(s, 0, "JAPAN "@)
    &&& rom_code_at(s, 6)
    &&& rev_block_at(s, e)
    &&& digits_at(s, e + 4, 1)
    &&& e + 5 < s.len() && is_upper(s[e + 5])
    &&& e + 6 < s.len() && is_alnum(s[e + 6])
    &&& e + 7 < s.len() && s[e + 7] == ' '
    &&& class_run(s, e + 8, 2, CharClass::Upper)
    &&& e + 10 < s.len() && s[e + 10] == ' '
    &&& digits_at(s, e + 11, 4)
    &&& e + 15 < s.len() && s[e + 15] == ' '
    &&& e + 16 < s.len() && is_upper(s[e + 16])
    &&& digits_at(s, e + 17, 2)
    &&& s.len() == e + 19
}

pub open spec fn fujitsu_outcome(s: Seq<char>) -> Result<MaskRomView, ParseErrorView> {
    let e = rom_code_end(s, 6);
    rom_dated(s, s.subrange(6, e), Some(Manufacturer::Fujitsu), None, e + 11)
}

/// Fujitsu mask ROM.
pub fn fujitsu(text: &str) -> (r: Option<Result<MaskRom, ParseError>>)
    ensures
        match r {
            None => !fujitsu_shape(text@),
            Some(Ok(rec)) => fujitsu_shape(text@) && fujitsu_outcome(text@) == Ok::<
                MaskRomView,
                ParseErrorView,
            >(rec@),
            Some(Err(err)) => fujitsu_shape(text@) && fujitsu_outcome(text@) == Err::<
                MaskRomView,
                ParseErrorView,
            >(err@),
        },
{
    if !check_lit(text, 0, "JAPAN ") {
        return None;
    }
    let e = match scan_rom_code(text, 6) {
        Some(e) => e,
        None => {
            return None;
        },
    };
    if !check_rev_block(text, e) {
        return None;
    }
    if !check_run(text, e + 4, 1, CharClass::Digit) {
        return None;
    }
    if !check_class_at(text, e + 5, CharClass::Upper) {
        return None;
    }
    if !check_class_at(text, e + 6, CharClass::Alnum) {
        return None;
    }
    if !check_char(text, e + 7, ' ') {
        return None;
    }
    if !check_run(text, e + 8, 2, CharClass::Upper) {
        return None;
    }
    if !check_char(text, e + 10, ' ') {
        return None;
    }
    if !check_run(text, e + 11, 4, CharClass::Digit) {
        return None;
    }
    if !check_char(text, e + 15, ' ') {
        return None;
    }
    if !check_class_at(text, e + 16, CharClass::Upper) {
        return None;
    }
    if !check_run(text, e + 17, 2, CharClass::Digit) {
        return None;
    }
    if text.unicode_len() != e + 19 {
        return None;
    }
    match build_dated(text, 6, e, Some(Manufacturer::Fujitsu), None, e + 11) {
        Ok(rec) => Some(Ok(rec)),
        Err(err) => Some(Err(err)),
    }
}

// ---------------------------------------------------------------------------
// The decoder.
// ---------------------------------------------------------------------------

/// The decoder's decision on an input: the outcome of the first grammar, in
/// the fixed priority order, whose shape the input matches; nothing when no
/// grammar matches.
pub open spec fn mask_rom_decision(s: Seq<char>) -> Option<Result<MaskRomView, ParseErrorView>> {
    if sharp_shape(s) {
        Some(sharp_outcome(s))
    } else if sharp2_shape(s) {
        Some(sharp2_outcome(s))
    } else if sharp3_shape(s) {
        Some(sharp3_outcome(s))
    } else if macronix_shape(s) {
        Some(macronix_outcome(s))
    } else if macronix2_shape(s) {
        Some(macronix2_outcome(s))
    } else if oki_msm538011e_shape(s) {
        Some(oki_msm538011e_outcome(s))
    } else if oki_mr531614g_shape(s) {
        Some(oki_mr531614g_outcome(s))
    } else if nec_shape(s) {
        Some(nec_outcome(s))
    } else if nec_like_shape(s) {
        Some(nec_like_outcome(s))
    } else if at_t_shape(s) {
        Some(at_t_outcome(s))
    } else if smsc_shape(s) {
        Some(smsc_outcome(s))
    } else if glop_top_shape(s) {
        Some(glop_top_outcome(s))
    } else if toshiba_shape(s) {
        Some(toshiba_outcome(s))
    } else if samsung_shape(s) {
        Some(samsung_outcome(s))
    } else if samsung2_shape(s) {
        Some(samsung2_outcome(s))
    } else if fujitsu_shape(s) {
        Some(fujitsu_outcome(s))
    } else {
        None
    }
}

/// Decodes a mask ROM marking. `None` means no known grammar matches the
/// whole input; `Some(Err(..))` means a grammar matched but a captured
/// fragment is invalid — an authoritative error, not a fall-through.
pub fn parse_mask_rom(text: &str) -> (r: Option<Result<MaskRom, ParseError>>)
    ensures
        match r {
            None => mask_rom_decision(text@) is None,
            Some(Ok(rec)) => mask_rom_decision(text@) == Some(
                Ok::<MaskRomView, ParseErrorView>(rec@),
            ),
            Some(Err(err)) => mask_rom_decision(text@) == Some(
                Err::<MaskRomView, ParseErrorView>(err@),
            ),
        },
{
    if let Some(r) = sharp(text) {
        return Some(r);
    }
    if let Some(r) = sharp2(text) {
        return Some(r);
    }
    if let Some(r) = sharp3(text) {
        return Some(r);
    }
    if let Some(r) = macronix(text) {
        return Some(r);
    }
    if let Some(r) = macronix2(text) {
        return Some(r);
    }
    if let Some(r) = oki_msm538011e(text) {
        return Some(r);
    }
    if let Some(r) = oki_mr531614g(text) {
        return Some(r);
    }
    if let Some(r) = nec(text) {
        return Some(r);
    }
    if let Some(r) = nec_like(text) {
        return Some(r);
    }
    if let Some(r) = at_t(text) {
        return Some(r);
    }
    if let Some(r) = smsc(text) {
        return Some(r);
    }
    if let Some(r) = glop_top(text) {
        return Some(r);
    }
    if let Some(r) = toshiba(text) {
        return Some(r);
    }
    if let Some(r) = samsung(text) {
        return Some(r);
    }
    if let Some(r) = samsung2(text) {
        return Some(r);
    }
    if let Some(r) = fujitsu(text) {
        return Some(r);
    }
    None
}

/// The matcher order is a fixed priority policy: when a grammar's shape
/// matches, the decision is that grammar's outcome unless a grammar placed
/// earlier in the order also matches — never a later one.
pub proof fn lemma_mask_rom_priority(s: Seq<char>)
    ensures
        sharp_shape(s) ==> mask_rom_decision(s) == Some(sharp_outcome(s)),
        ({
            &&& !sharp_shape(s)
            &&& sharp2_shape(s)
        }) ==> mask_rom_decision(s) == Some(sharp2_outcome(s)),
        ({
            &&& !sharp_shape(s)
            &&& !sharp2_shape(s)
            &&& sharp3_shape(s)
        }) ==> mask_rom_decision(s) == Some(sharp3_outcome(s)),
        ({
            &&& !sharp_shape(s)
            &&& !sharp2_shape(s)
            &&& !sharp3_shape(s)
            &&& macronix_shape(s)
        }) ==> mask_rom_decision(s) == Some(macronix_outcome(s)),
        ({
            &&& !sharp_shape(s)
            &&& !sharp2_shape(s)
            &&& !sharp3_shape(s)
            &&& !macronix_shape(s)
            &&& macronix2_shape(s)
        }) ==> mask_rom_decision(s) == Some(macronix2_outcome(s)),
        ({
            &&& !sharp_shape(s)
            &&& !sharp2_shape(s)
            &&& !sharp3_shape(s)
            &&& !macronix_shape(s)
            &&& !macronix2_shape(s)
            &&& oki_msm538011e_shape(s)
        }) ==> mask_rom_decision(s) == Some(oki_msm538011e_outcome(s)),
        ({
            &&& !sharp_shape(s)
            &&& !sharp2_shape(s)
            &&& !sharp3_shape(s)
            &&& !macronix_shape(s)
            &&& !macronix2_shape(s)
            &&& !oki_msm538011e_shape(s)
            &&& oki_mr531614g_shape(s)
        }) ==> mask_rom_decision(s) == Some(oki_mr531614g_outcome(s)),
        ({
            &&& !sharp_shape(s)
            &&& !sharp2_shape(s)
            &&& !sharp3_shape(s)
            &&& !macronix_shape(s)
            &&& !macronix2_shape(s)
            &&& !oki_msm538011e_shape(s)
            &&& !oki_mr531614g_shape(s)
            &&& nec_shape(s)
        }) ==> mask_rom_decision(s) == Some(nec_outcome(s)),
        ({
            &&& !sharp_shape(s)
            &&& !sharp2_shape(s)
            &&& !sharp3_shape(s)
            &&& !macronix_shape(s)
            &&& !macronix2_shape(s)
            &&& !oki_msm538011e_shape(s)
            &&& !oki_mr531614g_shape(s)
            &&& !nec_shape(s)
            &&& nec_like_shape(s)
        }) ==> mask_rom_decision(s) == Some(nec_like_outcome(s)),
        ({
            &&& !sharp_shape(s)
            &&& !sharp2_shape(s)
            &&& !sharp3_shape(s)
            &&& !macronix_shape(s)
            &&& !macronix2_shape(s)
            &&& !oki_msm538011e_shape(s)
            &&& !oki_mr531614g_shape(s)
            &&& !nec_shape(s)
            &&& !nec_like_shape(s)
            &&& at_t_shape(s)
        }) ==> mask_rom_decision(s) == Some(at_t_outcome(s)),
        ({
            &&& !sharp_shape(s)
            &&& !sharp2_shape(s)
            &&& !sharp3_shape(s)
            &&& !macronix_shape(s)
            &&& !macronix2_shape(s)
            &&& !oki_msm538011e_shape(s)
            &&& !oki_mr531614g_shape(s)
            &&& !nec_shape(s)
            &&& !nec_like_shape(s)
            &&& !at_t_shape(s)
            &&& smsc_shape(s)
        }) ==> mask_rom_decision(s) == Some(smsc_outcome(s)),
        ({
            &&& !sharp_shape(s)
            &&& !sharp2_shape(s)
            &&& !sharp3_shape(s)
            &&& !macronix_shape(s)
            &&& !macronix2_shape(s)
            &&& !oki_msm538011e_shape(s)
            &&& !oki_mr531614g_shape(s)
            &&& !nec_shape(s)
            &&& !nec_like_shape(s)
            &&& !at_t_shape(s)
            &&& !smsc_shape(s)
            &&& glop_top_shape(s)
        }) ==> mask_rom_decision(s) == Some(glop_top_outcome(s)),
        ({
            &&& !sharp_shape(s)
            &&& !sharp2_shape(s)
            &&& !sharp3_shape(s)
            &&& !macronix_shape(s)
            &&& !macronix2_shape(s)
            &&& !oki_msm538011e_shape(s)
            &&& !oki_mr531614g_shape(s)
            &&& !nec_shape(s)
            &&& !nec_like_shape(s)
            &&& !at_t_shape(s)
            &&& !smsc_shape(s)
            &&& !glop_top_shape(s)
            &&& toshiba_shape(s)
        }) ==> mask_rom_decision(s) == Some(toshiba_outcome(s)),
        ({
            &&& !sharp_shape(s)
            &&& !sharp2_shape(s)
            &&& !sharp3_shape(s)
            &&& !macronix_shape(s)
            &&& !macronix2_shape(s)
            &&& !oki_msm538011e_shape(s)
            &&& !oki_mr531614g_shape(s)
            &&& !nec_shape(s)
            &&& !nec_like_shape(s)
            &&& !at_t_shape(s)
            &&& !smsc_shape(s)
            &&& !glop_top_shape(s)
            &&& !toshiba_shape(s)
            &&& samsung_shape(s)
        }) ==> mask_rom_decision(s) == Some(samsung_outcome(s)),
        ({
            &&& !sharp_shape(s)
            &&& !sharp2_shape(s)
            &&& !sharp3_shape(s)
            &&& !macronix_shape(s)
            &&& !macronix2_shape(s)
            &&& !oki_msm538011e_shape(s)
            &&& !oki_mr531614g_shape(s)
            &&& !nec_shape(s)
            &&& !nec_like_shape(s)
            &&& !at_t_shape(s)
            &&& !smsc_shape(s)
            &&& !glop_top_shape(s)
            &&& !toshiba_shape(s)
            &&& !samsung_shape(s)
            &&& samsung2_shape(s)
        }) ==> mask_rom_decision(s) == Some(samsung2_outcome(s)),
        ({
            &&& !sharp_shape(s)
            &&& !sharp2_shape(s)
            &&& !sharp3_shape(s)
            &&& !macronix_shape(s)
            &&& !macronix2_shape(s)
            &&& !oki_msm538011e_shape(s)
            &&& !oki_mr531614g_shape(s)
            &&& !nec_shape(s)
            &&& !nec_like_shape(s)
            &&& !at_t_shape(s)
            &&& !smsc_shape(s)
            &&& !glop_top_shape(s)
            &&& !toshiba_shape(s)
            &&& !samsung_shape(s)
            &&& !samsung2_shape(s)
            &&& fujitsu_shape(s)
        }) ==> mask_rom_decision(s) == Some(fujitsu_outcome(s)),
        mask_rom_decision(s) is None <==> {
            &&& !sharp_shape(s)
            &&& !sharp2_shape(s)
            &&& !sharp3_shape(s)
            &&& !macronix_shape(s)
            &&& !macronix2_shape(s)
            &&& !oki_msm538011e_shape(s)
            &&& !oki_mr531614g_shape(s)
            &&& !nec_shape(s)
            &&& !nec_like_shape(s)
            &&& !at_t_shape(s)
            &&& !smsc_shape(s)
            &&& !glop_top_shape(s)
            &&& !toshiba_shape(s)
            &&& !samsung_shape(s)
            &&& !samsung2_shape(s)
            &&& !fujitsu_shape(s)
        },
{
}

/// Whole-string anchoring: a matching label stops matching its grammar when
/// a character is added at either end of the fixed-length Sharp grammar, or
/// in front of the grammars that open with the cartridge ROM code or a
/// vendor literal.
pub proof fn lemma_mask_rom_anchoring(s: Seq<char>, c: char)
    ensures
        sharp3_shape(s) ==> !sharp3_shape(s.push(c)) && !sharp3_shape(seq![c] + s),
        sharp_shape(s) ==> !sharp_shape(seq![c] + s),
        sharp2_shape(s) ==> !sharp2_shape(seq![c] + s),
        oki_msm538011e_shape(s) ==> !oki_msm538011e_shape(seq![c] + s),
        oki_mr531614g_shape(s) ==> !oki_mr531614g_shape(seq![c] + s),
        toshiba_shape(s) ==> !toshiba_shape(seq![c] + s),
        glop_top_shape(s) ==> !glop_top_shape(seq![c] + s),
{
    reveal_strlit("DMG-");
    reveal_strlit("CGB-");
    reveal_strlit("TOSHIBA ");
    reveal_strlit("LR0G150 ");
    let ext = seq![c] + s;
    if sharp_shape(s) || sharp2_shape(s) || oki_msm538011e_shape(s) || oki_mr531614g_shape(s) {
        // a matching label opens with `D` or `C`; the shifted label would
        // need that character at its second position and `M` or `G` there too
        if lit_at(s, 0, "DMG-"@) {
            assert(s.subrange(0, 4)[0] == s[0]);
        }
        if lit_at(s, 0, "CGB-"@) {
            assert(s.subrange(0, 4)[0] == s[0]);
        }
        assert(s[0] == 'D' || s[0] == 'C');
        if lit_at(ext, 0, "DMG-"@) {
            assert(ext.subrange(0, 4)[1] == ext[1]);
        }
        if lit_at(ext, 0, "CGB-"@) {
            assert(ext.subrange(0, 4)[1] == ext[1]);
        }
        assert(ext[1] == s[0]);
        assert(!rom_code_at(ext, 0) && !lit_at(ext, 0, "DMG-"@));
    }
    if toshiba_shape(s) && lit_at(ext, 0, "TOSHIBA "@) {
        assert(s.subrange(0, 8)[0] == s[0]);
        assert(ext.subrange(0, 8)[1] == ext[1]);
        assert(ext[1] == s[0]);
        assert(false);
    }
    if glop_top_shape(s) && lit_at(ext, 0, "LR0G150 "@) {
        assert(s.subrange(0, 8)[0] == s[0]);
        assert(ext.subrange(0, 8)[1] == ext[1]);
        assert(ext[1] == s[0]);
        assert(false);
    }
}

} // verus!
