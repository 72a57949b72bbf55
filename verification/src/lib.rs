//! A verified fretboard layout generator.
//!
//! Given a tuning (six open-string note names), window dimensions, spacing
//! constants, a fret count and a colour palette, the library computes a
//! deterministic set of 2D primitives: horizontal string lines, vertical fret
//! lines, and coloured note markers placed along a reference row, each marker
//! tagged with the note name it stands for. A host renderer draws the
//! primitives and hands click events back; the library resolves a clicked
//! marker to its note name.
//!
//! All coordinates are integers. Midpoints (the nut offset and the half-gap
//! margins) must be exact, so the gap and window width are required to be
//! even.

pub mod config;
pub mod geometry;
pub mod layout;
pub mod note;
