//! Decoder for first-generation CPU package markings.
//!
//! The grammars are tried in a fixed, author-chosen order; the first grammar
//! that structurally matches the whole input decides the outcome. The order
//! is a correctness-critical priority policy (specific modern markings before
//! looser deprecated ones) and must not be rearranged.

use vstd::prelude::*;
use vstd::string::StrSliceExecFns;

use crate::calendar::{week2, week2_res, year2_res, year2_u16};
use crate::error::{ParseError, ParseErrorView};
use crate::scan::{
    check_char, check_class_at, check_lit, check_run, digits_at, is_upper, lit_at, CharClass,
};

verus! {

/// The CPU revisions and packages the grammars can distinguish.
#[derive(Clone, Debug, Eq, PartialEq)]
pub enum Gen1CpuKind {
    Dmg0,
    DmgA,
    DmgB,
    DmgC,
    DmgBlobB,
    DmgBlobC,
    Sgb,
}

/// A decoded CPU package marking. Blob markings carry no date, so the year
/// and week are optional.
#[derive(Clone, Debug, Eq, PartialEq)]
pub struct Gen1Cpu {
    pub kind: Gen1CpuKind,
    pub year: Option<u16>,
    pub week: Option<u8>,
}

/// The outcome of converting a structurally matched label whose date code
/// stands at positions `a..a + 4`: the inferred year, then the week, either
/// of which may reject its fragment.
pub open spec fn gen1_dated(s: Seq<char>, kind: Gen1CpuKind, a: int) -> Result<
    Gen1Cpu,
    ParseErrorView,
> {
    let yf = s.subrange(a, a + 2);
    let wf = s.subrange(a + 2, a + 4);
    match year2_res(yf) {
        None => Err(ParseErrorView::Year(yf)),
        Some(y) => match week2_res(wf) {
            None => Err(ParseErrorView::Week(wf)),
            Some(w) => Ok(Gen1Cpu { kind, year: Some(y), week: Some(w) }),
        },
    }
}

/// Converts the date code at `a..a + 4`, the year fragment first.
fn convert_dated(text: &str, kind: Gen1CpuKind, a: usize) -> (r: Result<Gen1Cpu, ParseError>)
    requires
        a + 4 <= text@.len(),
        a + 4 <= usize::MAX,
    ensures
        match r {
            Ok(rec) => gen1_dated(text@, kind, a as int) == Ok::<Gen1Cpu, ParseErrorView>(rec),
            Err(e) => gen1_dated(text@, kind, a as int) == Err::<Gen1Cpu, ParseErrorView>(e@),
        },
{
    let yfrag = text.substring_char(a, a + 2);
    let y = match year2_u16(yfrag) {
        Ok(y) => y,
        Err(e) => {
            return Err(e);
        },
    };
    let wfrag = text.substring_char(a + 2, a + 4);
    let w = match week2(wfrag) {
        Ok(w) => w,
        Err(e) => {
            return Err(e);
        },
    };
    Ok(Gen1Cpu { kind, year: Some(y), week: Some(w) })
}

/// The label ends, from position `t` on, in one or two upper-case letters.
pub open spec fn upper_tail(s: Seq<char>, t: int) -> bool {
    ||| (0 <= t && s.len() == t + 1 && is_upper(s[t]))
    ||| (0 <= t && s.len() == t + 2 && is_upper(s[t]) && is_upper(s[t + 1]))
}

/// Does `s` end, from position `t` on, in one or two upper-case letters?
fn check_upper_tail(s: &str, t: usize) -> (b: bool)
    ensures
        b == upper_tail(s@, t as int),
{
    let n = s.unicode_len();
    if t >= n {
        return false;
    }
    if n - t == 1 {
        check_class_at(s, t, CharClass::Upper)
    } else if n - t == 2 {
        check_class_at(s, t, CharClass::Upper) && check_class_at(s, t + 1, CharClass::Upper)
    } else {
        false
    }
}

/// Grammar: `DMG-CPU LR35902 ____ _` with a four-digit date code and a final
/// revision letter. Example: `DMG-CPU LR35902 8907 D`.
pub open spec fn dmg_cpu_lr35902_shape(s: Seq<char>) -> bool {
    &&& s.len() == 22
    &&& lit_at(s, 0, "DMG-CPU LR35902 "@)
    &&& digits_at(s, 16, 4)
    &&& s[20] == ' '
    &&& is_upper(s[21])
}

pub open spec fn dmg_cpu_lr35902_outcome(s: Seq<char>) -> Result<Gen1Cpu, ParseErrorView> {
    gen1_dated(s, Gen1CpuKind::Dmg0, 16)
}

/// The earliest DMG CPU marking, carrying the part number `LR35902`.
pub fn dmg_cpu_lr35902(text: &str) -> (r: Option<Result<Gen1Cpu, ParseError>>)
    ensures
        match r {
            None => !dmg_cpu_lr35902_shape(text@),
            Some(Ok(rec)) => dmg_cpu_lr35902_shape(text@) && dmg_cpu_lr35902_outcome(text@)
                == Ok::<Gen1Cpu, ParseErrorView>(rec),
            Some(Err(e)) => dmg_cpu_lr35902_shape(text@) && dmg_cpu_lr35902_outcome(text@)
                == Err::<Gen1Cpu, ParseErrorView>(e@),
        },
{
    if text.unicode_len() != 22 {
        return None;
    }
    if !check_lit(text, 0, "DMG-CPU LR35902 ") {
        return None;
    }
    if !check_run(text, 16, 4, CharClass::Digit) {
        return None;
    }
    if !check_char(text, 20, ' ') {
        return None;
    }
    if !check_class_at(text, 21, CharClass::Upper) {
        return None;
    }
    match convert_dated(text, Gen1CpuKind::Dmg0, 16) {
        Ok(rec) => Some(Ok(rec)),
        Err(e) => Some(Err(e)),
    }
}

/// An optional ` A`, ` B` or ` C` revision follows `DMG-CPU` at position 7.
pub open spec fn dmg_cpu_revision_at(s: Seq<char>) -> bool {
    9 <= s.len() && s[7] == ' ' && (s[8] == 'A' || s[8] == 'B' || s[8] == 'C')
}

/// Position just past `DMG-CPU` and its optional revision letter.
pub open spec fn dmg_cpu_body(s: Seq<char>) -> int {
    if dmg_cpu_revision_at(s) {
        9
    } else {
        7
    }
}

/// Grammar: `DMG-CPU`, an optional revision ` A`/` B`/` C`, the literal
/// ` © 1989 Nintendo JAPAN `, a four-digit date code, and one or two final
/// letters. Example: `DMG-CPU B © 1989 Nintendo JAPAN 9207 D`.
pub open spec fn dmg_cpu_shape(s: Seq<char>) -> bool {
    let p = dmg_cpu_body(s);
    &&& lit_at(s, 0, "DMG-CPU"@)
    &&& lit_at(s, p, " © 1989 Nintendo JAPAN "@)
    &&& digits_at(s, p + 23, 4)
    &&& s[p + 27] == ' '
    &&& upper_tail(s, p + 28)
}

pub open spec fn dmg_cpu_kind(s: Seq<char>) -> Gen1CpuKind {
    if dmg_cpu_revision_at(s) {
        if s[8] == 'A' {
            Gen1CpuKind::DmgA
        } else if s[8] == 'B' {
            Gen1CpuKind::DmgB
        } else {
            Gen1CpuKind::DmgC
        }
    } else {
        Gen1CpuKind::Dmg0
    }
}

pub open spec fn dmg_cpu_outcome(s: Seq<char>) -> Result<Gen1Cpu, ParseErrorView> {
    gen1_dated(s, dmg_cpu_kind(s), dmg_cpu_body(s) + 23)
}

/// The standard DMG CPU marking with the 1989 copyright line.
pub fn dmg_cpu(text: &str) -> (r: Option<Result<Gen1Cpu, ParseError>>)
    ensures
        match r {
            None => !dmg_cpu_shape(text@),
            Some(Ok(rec)) => dmg_cpu_shape(text@) && dmg_cpu_outcome(text@) == Ok::<
                Gen1Cpu,
                ParseErrorView,
            >(rec),
            Some(Err(e)) => dmg_cpu_shape(text@) && dmg_cpu_outcome(text@) == Err::<
                Gen1Cpu,
                ParseErrorView,
            >(e@),
        },
{
    if !check_lit(text, 0, "DMG-CPU") {
        return None;
    }
    let rev = check_char(text, 7, ' ') && (check_char(text, 8, 'A') || check_char(text, 8, 'B')
        || check_char(text, 8, 'C'));
    let p: usize = if rev {
        9
    } else {
        7
    };
    if !check_lit(text, p, " © 1989 Nintendo JAPAN ") {
        return None;
    }
    if !check_run(text, p + 23, 4, CharClass::Digit) {
        return None;
    }
    if !check_char(text, p + 27, ' ') {
        return None;
    }
    if !check_upper_tail(text, p + 28) {
        return None;
    }
    let kind = if rev {
        let c = text.get_char(8);
        if c == 'A' {
            Gen1CpuKind::DmgA
        } else if c == 'B' {
            Gen1CpuKind::DmgB
        } else {
            Gen1CpuKind::DmgC
        }
    } else {
        Gen1CpuKind::Dmg0
    };
    match convert_dated(text, kind, p + 23) {
        Ok(rec) => Some(Ok(rec)),
        Err(e) => Some(Err(e)),
    }
}

/// An optional ` A` or ` B` revision follows `DMG-CPU` at position 7.
pub open spec fn dmg_dep_revision_at(s: Seq<char>) -> bool {
    9 <= s.len() && s[7] == ' ' && (s[8] == 'A' || s[8] == 'B')
}

/// Position just past `DMG-CPU` and its optional revision letter.
pub open spec fn dmg_dep_body(s: Seq<char>) -> int {
    if dmg_dep_revision_at(s) {
        9
    } else {
        7
    }
}

/// Grammar: `DMG-CPU`, an optional revision ` A`/` B`, a four-digit date
/// code, and one or two final letters — the short marking without the
/// copyright line. Example: `DMG-CPU 8907 D`.
pub open spec fn dmg_cpu_deprecated_shape(s: Seq<char>) -> bool {
    let p = dmg_dep_body(s);
    &&& lit_at(s, 0, "DMG-CPU"@)
    &&& s[p] == ' '
    &&& digits_at(s, p + 1, 4)
    &&& s[p + 5] == ' '
    &&& upper_tail(s, p + 6)
}

pub open spec fn dmg_cpu_deprecated_kind(s: Seq<char>) -> Gen1CpuKind {
    if dmg_dep_revision_at(s) {
        if s[8] == 'A' {
            Gen1CpuKind::DmgA
        } else {
            Gen1CpuKind::DmgB
        }
    } else {
        Gen1CpuKind::Dmg0
    }
}

pub open spec fn dmg_cpu_deprecated_outcome(s: Seq<char>) -> Result<Gen1Cpu, ParseErrorView> {
    gen1_dated(s, dmg_cpu_deprecated_kind(s), dmg_dep_body(s) + 1)
}

/// The deprecated short DMG CPU marking, kept after the fuller grammars so
/// it cannot shadow them.
pub fn dmg_cpu_deprecated(text: &str) -> (r: Option<Result<Gen1Cpu, ParseError>>)
    ensures
        match r {
            None => !dmg_cpu_deprecated_shape(text@),
            Some(Ok(rec)) => dmg_cpu_deprecated_shape(text@) && dmg_cpu_deprecated_outcome(text@)
                == Ok::<Gen1Cpu, ParseErrorView>(rec),
            Some(Err(e)) => dmg_cpu_deprecated_shape(text@) && dmg_cpu_deprecated_outcome(text@)
                == Err::<Gen1Cpu, ParseErrorView>(e@),
        },
{
    if !check_lit(text, 0, "DMG-CPU") {
        return None;
    }
    let rev = check_char(text, 7, ' ') && (check_char(text, 8, 'A') || check_char(text, 8, 'B'));
    let p: usize = if rev {
        9
    } else {
        7
    };
    if !check_char(text, p, ' ') {
        return None;
    }
    if !check_run(text, p + 1, 4, CharClass::Digit) {
        return None;
    }
    if !check_char(text, p + 5, ' ') {
        return None;
    }
    if !check_upper_tail(text, p + 6) {
        return None;
    }
    let kind = if rev {
        if text.get_char(8) == 'A' {
            Gen1CpuKind::DmgA
        } else {
            Gen1CpuKind::DmgB
        }
    } else {
        Gen1CpuKind::Dmg0
    };
    match convert_dated(text, kind, p + 1) {
        Ok(rec) => Some(Ok(rec)),
        Err(e) => Some(Err(e)),
    }
}

/// Grammar: a bare `B` or `C` blob marking, carrying no date at all.
pub open spec fn dmg_cpu_blob_shape(s: Seq<char>) -> bool {
    s.len() == 1 && (s[0] == 'B' || s[0] == 'C')
}

pub open spec fn dmg_cpu_blob_outcome(s: Seq<char>) -> Result<Gen1Cpu, ParseErrorView> {
    Ok(
        Gen1Cpu {
            kind: if s[0] == 'B' {
                Gen1CpuKind::DmgBlobB
            } else {
                Gen1CpuKind::DmgBlobC
            },
            year: None,
            week: None,
        },
    )
}

/// The bare blob marking of early units: a single `B` or `C`.
pub fn dmg_cpu_blob(text: &str) -> (r: Option<Result<Gen1Cpu, ParseError>>)
    ensures
        match r {
            None => !dmg_cpu_blob_shape(text@),
            Some(Ok(rec)) => dmg_cpu_blob_shape(text@) && dmg_cpu_blob_outcome(text@) == Ok::<
                Gen1Cpu,
                ParseErrorView,
            >(rec),
            Some(Err(e)) => dmg_cpu_blob_shape(text@) && dmg_cpu_blob_outcome(text@) == Err::<
                Gen1Cpu,
                ParseErrorView,
            >(e@),
        },
{
    if text.unicode_len() != 1 {
        return None;
    }
    let c = text.get_char(0);
    if c == 'B' {
        Some(Ok(Gen1Cpu { kind: Gen1CpuKind::DmgBlobB, year: None, week: None }))
    } else if c == 'C' {
        Some(Ok(Gen1Cpu { kind: Gen1CpuKind::DmgBlobC, year: None, week: None }))
    } else {
        None
    }
}

/// Grammar: the Super GB CPU marking with both copyright lines. Example:
/// `SGB-CPU 01 © 1994 Nintendo Ⓜ 1989 Nintendo JAPAN 9434 7 D`.
pub open spec fn sgb_cpu_shape(s: Seq<char>) -> bool {
    &&& s.len() == 57
    &&& lit_at(s, 0, "SGB-CPU 01 © 1994 Nintendo Ⓜ 1989 Nintendo JAPAN "@)
    &&& digits_at(s, 49, 4)
    &&& s[53] == ' '
    &&& digits_at(s, 54, 1)
    &&& s[55] == ' '
    &&& is_upper(s[56])
}

pub open spec fn sgb_cpu_outcome(s: Seq<char>) -> Result<Gen1Cpu, ParseErrorView> {
    gen1_dated(s, Gen1CpuKind::Sgb, 49)
}

/// The Super GB CPU marking.
pub fn sgb_cpu(text: &str) -> (r: Option<Result<Gen1Cpu, ParseError>>)
    ensures
        match r {
            None => !sgb_cpu_shape(text@),
            Some(Ok(rec)) => sgb_cpu_shape(text@) && sgb_cpu_outcome(text@) == Ok::<
                Gen1Cpu,
                ParseErrorView,
            >(rec),
            Some(Err(e)) => sgb_cpu_shape(text@) && sgb_cpu_outcome(text@) == Err::<
                Gen1Cpu,
                ParseErrorView,
            >(e@),
        },
{
    if text.unicode_len() != 57 {
        return None;
    }
    if !check_lit(text, 0, "SGB-CPU 01 © 1994 Nintendo Ⓜ 1989 Nintendo JAPAN ") {
        return None;
    }
    if !check_run(text, 49, 4, CharClass::Digit) {
        return None;
    }
    if !check_char(text, 53, ' ') {
        return None;
    }
    if !check_run(text, 54, 1, CharClass::Digit) {
        return None;
    }
    if !check_char(text, 55, ' ') {
        return None;
    }
    if !check_class_at(text, 56, CharClass::Upper) {
        return None;
    }
    match convert_dated(text, Gen1CpuKind::Sgb, 49) {
        Ok(rec) => Some(Ok(rec)),
        Err(e) => Some(Err(e)),
    }
}

/// The decoder's decision on an input: the outcome of the first grammar, in
/// the fixed priority order, whose shape the input matches; nothing when no
/// grammar matches.
pub open spec fn gen1_decision(s: Seq<char>) -> Option<Result<Gen1Cpu, ParseErrorView>> {
    if dmg_cpu_shape(s) {
        Some(dmg_cpu_outcome(s))
    } else if dmg_cpu_blob_shape(s) {
        Some(dmg_cpu_blob_outcome(s))
    } else if dmg_cpu_lr35902_shape(s) {
        Some(dmg_cpu_lr35902_outcome(s))
    } else if dmg_cpu_deprecated_shape(s) {
        Some(dmg_cpu_deprecated_outcome(s))
    } else if sgb_cpu_shape(s) {
        Some(sgb_cpu_outcome(s))
    } else {
        None
    }
}

/// Decodes a CPU package marking. `None` means no known grammar matches the
/// whole input; `Some(Err(..))` means a grammar matched but a captured
/// fragment is invalid — an authoritative error, not a fall-through.
pub fn parse_gen1_cpu(text: &str) -> (r: Option<Result<Gen1Cpu, ParseError>>)
    ensures
        match r {
            None => gen1_decision(text@) is None,
            Some(Ok(rec)) => gen1_decision(text@) == Some(Ok::<Gen1Cpu, ParseErrorView>(rec)),
            Some(Err(e)) => gen1_decision(text@) == Some(Err::<Gen1Cpu, ParseErrorView>(e@)),
        },
{
    if let Some(r) = dmg_cpu(text) {
        return Some(r);
    }
    if let Some(r) = dmg_cpu_blob(text) {
        return Some(r);
    }
    if let Some(r) = dmg_cpu_lr35902(text) {
        return Some(r);
    }
    if let Some(r) = dmg_cpu_deprecated(text) {
        return Some(r);
    }
    if let Some(r) = sgb_cpu(text) {
        return Some(r);
    }
    None
}

/// The matcher order is a fixed priority policy: when a grammar's shape
/// matches, the decision is that grammar's outcome unless a grammar placed
/// earlier in the order also matches — never a later one.
pub proof fn lemma_gen1_priority(s: Seq<char>)
    ensures
        dmg_cpu_shape(s) ==> gen1_decision(s) == Some(dmg_cpu_outcome(s)),
        !dmg_cpu_shape(s) && dmg_cpu_blob_shape(s) ==> gen1_decision(s) == Some(
            dmg_cpu_blob_outcome(s),
        ),
        !dmg_cpu_shape(s) && !dmg_cpu_blob_shape(s) && dmg_cpu_lr35902_shape(s)
            ==> gen1_decision(s) == Some(dmg_cpu_lr35902_outcome(s)),
        !dmg_cpu_shape(s) && !dmg_cpu_blob_shape(s) && !dmg_cpu_lr35902_shape(s)
            && dmg_cpu_deprecated_shape(s) ==> gen1_decision(s) == Some(
            dmg_cpu_deprecated_outcome(s),
        ),
        !dmg_cpu_shape(s) && !dmg_cpu_blob_shape(s) && !dmg_cpu_lr35902_shape(s)
            && !dmg_cpu_deprecated_shape(s) && sgb_cpu_shape(s) ==> gen1_decision(s) == Some(
            sgb_cpu_outcome(s),
        ),
{
}

/// Grammars are anchored to the whole string: a label that matches one of the
/// fixed-length grammars no longer matches it when a character is added at
/// either end.
pub proof fn lemma_gen1_anchoring(s: Seq<char>, c: char)
    ensures
        dmg_cpu_lr35902_shape(s) ==> !dmg_cpu_lr35902_shape(s.push(c))
            && !dmg_cpu_lr35902_shape(seq![c] + s),
        dmg_cpu_blob_shape(s) ==> !dmg_cpu_blob_shape(s.push(c)) && !dmg_cpu_blob_shape(
            seq![c] + s,
        ),
        sgb_cpu_shape(s) ==> !sgb_cpu_shape(s.push(c)) && !sgb_cpu_shape(seq![c] + s),
{
}

/// The variable-length grammars are anchored at the start as well: a label
/// that matches one of them no longer matches it when a character is put in
/// front. (A trailing character can turn a one-letter revision suffix into a
/// two-letter one, so only the start is anchored for these two grammars.)
pub proof fn lemma_gen1_prefix_anchoring(s: Seq<char>, c: char)
    ensures
        dmg_cpu_shape(s) ==> !dmg_cpu_shape(seq![c] + s),
        dmg_cpu_deprecated_shape(s) ==> !dmg_cpu_deprecated_shape(seq![c] + s),
{
    reveal_strlit("DMG-CPU");
    let ext = seq![c] + s;
    if (dmg_cpu_shape(s) || dmg_cpu_deprecated_shape(s)) && lit_at(ext, 0, "DMG-CPU"@) {
        // the shifted label would need its second character to be the
        // literal's second one, but it is the literal's first
        assert(s.subrange(0, 7)[0] == s[0]);
        assert(ext.subrange(0, 7)[1] == ext[1]);
        assert(ext[1] == s[0]);
        assert(false);
    }
}

} // verus!
