//! Decoding of the free-text markings printed on integrated-circuit packages
//! into structured records: component kind, manufacturer, chip type, and the
//! year and week of manufacture.
//!
//! Each record kind owns an ordered list of grammars; the first grammar that
//! structurally matches the whole input decides the outcome. A structural
//! match whose captured fragments fail semantic validation (a week outside
//! 1-53, a year outside the production window) is an authoritative decode
//! error, never a fall-through to a later grammar.

pub mod calendar;
pub mod error;
pub mod gen1_cpu;
pub mod mask_rom;
pub mod scan;
pub mod tables;
