//! Verified core of an interactive musical-fretboard diagram.
//!
//! Given an instrument's string tunings, a selected musical scale
//! (key, mode, size) and display settings, the library computes which
//! fretted positions belong to the scale, how each position is labeled
//! and colored, and where every string, fret wire, fret marker and
//! note bubble sits on a 2D grid.  A presentation layer issues the
//! actual draw calls; everything here is pure computation with
//! machine-checked contracts.

pub mod scales;
pub mod intervals;
pub mod instruments;
pub mod layout;
