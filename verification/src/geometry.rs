//! The primitives the generator emits: points, colours, string lines, fret
//! lines and note markers, all on integer coordinates.

use vstd::prelude::*;
use crate::note::Note;

verus! {

/// A point in the drawing plane. The layout is flat, so no depth coordinate
/// is carried; a renderer that wants one places every primitive at depth
/// zero.
#[derive(Clone, Copy, Debug, PartialEq, Eq, Structural)]
pub struct Point {
    pub x: i64,
    pub y: i64,
}

/// A colour, one byte per channel.
#[derive(Clone, Copy, Debug, PartialEq, Eq, Structural)]
pub struct Rgba {
    pub r: u8,
    pub g: u8,
    pub b: u8,
    pub a: u8,
}

/// A horizontal "string" segment, tagged with its open-string note and the
/// position of the note label drawn to the left of the line.
#[derive(Clone, Copy, Debug, PartialEq, Eq, Structural)]
pub struct StringLine {
    pub start: Point,
    pub end: Point,
    pub note: Note,
    pub label_pos: Point,
}

/// A vertical fret separator.
#[derive(Clone, Copy, Debug, PartialEq, Eq, Structural)]
pub struct FretLine {
    pub start: Point,
    pub end: Point,
}

/// The note name stored on a marker, resolved again when the marker is
/// clicked.
#[derive(Clone, Copy, Debug, PartialEq, Eq, Structural)]
pub struct NoteNameRectLabel {
    pub note_name: Note,
}

/// A clickable coloured marker. Its label (the note letter) is drawn as a
/// child at the marker's own position.
#[derive(Clone, Copy, Debug, PartialEq, Eq, Structural)]
pub struct Marker {
    pub pos: Point,
    pub color: Rgba,
    pub tag: NoteNameRectLabel,
}

} // verus!
