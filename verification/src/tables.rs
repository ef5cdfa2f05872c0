//! Static reference data: the closed enumeration of known manufacturers.
//!
//! Grammars select a member of this enumeration directly; an unknown
//! manufacturer is the absence of a value, never a free-text guess.

use vstd::prelude::*;

verus! {

/// The manufacturers the label grammars can name.
#[derive(Clone, Copy, Debug, PartialEq, Eq)]
pub enum Manufacturer {
    Sharp,
    Macronix,
    Oki,
    Nec,
    AtT,
    Smsc,
    Toshiba,
    Samsung,
    Fujitsu,
}

} // verus!
