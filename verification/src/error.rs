//! The decode error: a label structurally matched a grammar, but a captured
//! fragment fell outside that grammar's valid sub-vocabulary.

use vstd::prelude::*;

verus! {

/// Why a structurally matching label was rejected: the field the fragment was
/// destined for, together with the offending fragment itself.
#[derive(Clone, Debug, PartialEq, Eq)]
pub enum ParseError {
    /// The fragment could not be placed as a year of the production window.
    Year(String),
    /// The fragment is not a calendar week in the range 1-53.
    Week(String),
}

/// Mathematical image of [`ParseError`]: the same case over the fragment's
/// character sequence.
pub enum ParseErrorView {
    Year(Seq<char>),
    Week(Seq<char>),
}

impl View for ParseError {
    type V = ParseErrorView;

    open spec fn view(&self) -> ParseErrorView {
        match self {
            ParseError::Year(f) => ParseErrorView::Year(f@),
            ParseError::Week(f) => ParseErrorView::Week(f@),
        }
    }
}

} // verus!
