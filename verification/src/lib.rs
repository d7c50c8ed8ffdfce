//! A verified catalog library for MIDI synthesizer voices.
//!
//! The library models voice records (bank select MSB/LSB, program number,
//! display name), ordered voice banks, per-category voice tallies, and
//! hardware models that reference a list of banks.  It renders a
//! deterministic, line-oriented text report for a model: a header line,
//! one row per voice, and an optional summary line with the total voice
//! count broken down by category.

pub mod models;
pub mod text;
pub mod voices;
