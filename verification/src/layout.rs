//! The layout generator: from a validated configuration to the full set of
//! geometric primitives, and the click lookup that resolves a marker back to
//! its note name.

use vstd::prelude::*;
use vstd::arithmetic::mul::{
    lemma_mul_is_distributive_add, lemma_mul_nonnegative, lemma_mul_upper_bound,
};
use crate::config::{Config, MAX_FRET_COUNT, MAX_GAP, STRING_COUNT};
use crate::geometry::{FretLine, Marker, NoteNameRectLabel, Point, StringLine};
use crate::note::{chromatic_index, chromatic_note, single_gap, Note, NATURAL_COUNT};

verus! {

/// The leftmost x of every string line: one gap in from the left window
/// edge, with the origin at the window centre.
pub open spec fn line_start_x(width: int, gap: int) -> int {
    gap - width / 2
}

/// The rightmost x of every string line: one gap in from the right window
/// edge.
pub open spec fn line_end_x(width: int, gap: int) -> int {
    width / 2 - gap
}

/// The vertical position of string `i`: one gap per string, bottom string at
/// the origin.
pub open spec fn string_y(i: int, gap: int) -> int {
    i * gap
}

/// The bottom of every fret line: half a gap below the lowest string.
pub open spec fn fret_bottom_y(gap: int) -> int {
    -(gap / 2)
}

/// The top of every fret line: half a gap above the highest string.
pub open spec fn fret_top_y(gap: int) -> int {
    string_y(STRING_COUNT - 1, gap) + gap / 2
}

/// The horizontal advance the cursor takes before marker `n` is placed: half
/// a gap at the nut, a single gap when the note is "C" or "F", two gaps
/// otherwise (skipping the implicit sharp position).
pub open spec fn marker_step(n: int, gap: int) -> int {
    if n == 0 {
        gap / 2
    } else if single_gap(chromatic_note(n)) {
        gap
    } else {
        2 * gap
    }
}

/// The x of marker `n`: a cursor starts at the left string x and accumulates
/// one step per marker.
pub open spec fn marker_x(n: int, width: int, gap: int) -> int
    decreases n,
{
    if n <= 0 {
        line_start_x(width, gap) + marker_step(0, gap)
    } else {
        marker_x(n - 1, width, gap) + marker_step(n, gap)
    }
}

/// The vertical position of every marker: one gap below the lowest string.
pub open spec fn marker_y(gap: int) -> int {
    -gap
}

/// String line `i` of a layout for configuration `c`.
pub open spec fn string_line_matches(s: StringLine, c: Config, i: int) -> bool {
    let g = c.gap as int;
    let w = c.window_width as int;
    &&& s.start.x == line_start_x(w, g)
    &&& s.start.y == string_y(i, g)
    &&& s.end.x == line_end_x(w, g)
    &&& s.end.y == string_y(i, g)
    &&& s.note == c.tuning@[i]
    &&& s.label_pos.x == line_start_x(w, g) - g / 2
    &&& s.label_pos.y == string_y(i, g)
}

/// Fret line `i` of a layout for configuration `c`: evenly spaced from the
/// left string x, spanning from half a gap below the lowest string to half a
/// gap above the highest, whatever the fret count.
pub open spec fn fret_line_matches(f: FretLine, c: Config, i: int) -> bool {
    let g = c.gap as int;
    let w = c.window_width as int;
    &&& f.start.x == line_start_x(w, g) + i * g
    &&& f.start.y == fret_bottom_y(g)
    &&& f.end.x == line_start_x(w, g) + i * g
    &&& f.end.y == fret_top_y(g)
}

/// Marker `n` of a layout for configuration `c`: the accumulated x, the
/// reference row y, and a note name and colour driven by the same cyclic
/// index.
pub open spec fn marker_matches(m: Marker, c: Config, n: int) -> bool {
    let g = c.gap as int;
    let w = c.window_width as int;
    &&& m.pos.x == marker_x(n, w, g)
    &&& m.pos.y == marker_y(g)
    &&& m.tag.note_name == chromatic_note(n)
    &&& m.color == c.palette@[chromatic_index(n)]
}

/// The whole geometry a configuration generates: six string lines, one fret
/// line per fret, and one marker per fret position but the nut.
pub open spec fn layout_matches(l: Layout, c: Config) -> bool {
    &&& l.strings@.len() == STRING_COUNT
    &&& forall|i: int| 0 <= i < l.strings@.len() ==> string_line_matches(#[trigger] l.strings@[i], c, i)
    &&& l.frets@.len() == c.fret_count as int
    &&& forall|i: int| 0 <= i < l.frets@.len() ==> fret_line_matches(#[trigger] l.frets@[i], c, i)
    &&& l.markers@.len() == c.fret_count as int - 1
    &&& forall|n: int| 0 <= n < l.markers@.len() ==> marker_matches(#[trigger] l.markers@[n], c, n)
}

/// The generated geometry. Markers are identified by their index in
/// `markers`, lowest x first; the click lookup resolves such an index back
/// to the stored note name.
#[derive(Debug, PartialEq, Eq)]
pub struct Layout {
    pub strings: Vec<StringLine>,
    pub frets: Vec<FretLine>,
    pub markers: Vec<Marker>,
}

impl Config {
    /// Builds the full fretboard geometry for this configuration.
    pub fn generate(&self) -> (l: Layout)
        requires
            self.wf(),
        ensures
            layout_matches(l, *self),
    {
        let g: i64 = self.gap;
        let w: i64 = self.window_width;
        let start_x: i64 = g - w / 2;
        let end_x: i64 = w / 2 - g;

        let mut strings: Vec<StringLine> = Vec::new();
        let mut i: usize = 0;
        while i < STRING_COUNT
            invariant
                self.wf(),
                g == self.gap,
                w == self.window_width,
                start_x == line_start_x(w as int, g as int),
                end_x == line_end_x(w as int, g as int),
                i <= STRING_COUNT,
                strings@.len() == i,
                forall|k: int| 0 <= k < i ==> string_line_matches(#[trigger] strings@[k], *self, k),
            decreases STRING_COUNT - i,
        {
            proof {
                lemma_mul_nonnegative(i as int, g as int);
                lemma_mul_upper_bound(i as int, STRING_COUNT as int, g as int, MAX_GAP as int);
            }
            let y: i64 = (i as i64) * g;
            strings.push(StringLine {
                start: Point { x: start_x, y },
                end: Point { x: end_x, y },
                note: self.tuning[i],
                label_pos: Point { x: start_x - g / 2, y },
            });
            i += 1;
        }

        let bottom_y: i64 = -(g / 2);
        proof {
            lemma_mul_nonnegative((STRING_COUNT - 1) as int, g as int);
            lemma_mul_upper_bound((STRING_COUNT - 1) as int, STRING_COUNT as int, g as int, MAX_GAP as int);
        }
        let top_y: i64 = (STRING_COUNT as i64 - 1) * g + g / 2;
        let mut frets: Vec<FretLine> = Vec::new();
        let mut f: i64 = 0;
        while f < self.fret_count
            invariant
                self.wf(),
                g == self.gap,
                w == self.window_width,
                start_x == line_start_x(w as int, g as int),
                bottom_y == fret_bottom_y(g as int),
                top_y == fret_top_y(g as int),
                0 <= f <= self.fret_count,
                frets@.len() == f,
                forall|k: int| 0 <= k < f ==> fret_line_matches(#[trigger] frets@[k], *self, k),
            decreases self.fret_count - f,
        {
            proof {
                lemma_mul_nonnegative(f as int, g as int);
                lemma_mul_upper_bound(f as int, MAX_FRET_COUNT as int, g as int, MAX_GAP as int);
            }
            let x: i64 = start_x + f * g;
            frets.push(FretLine {
                start: Point { x, y: bottom_y },
                end: Point { x, y: top_y },
            });
            f += 1;
        }

        let marker_count: i64 = self.fret_count - 1;
        let row_y: i64 = -g;
        let mut markers: Vec<Marker> = Vec::new();
        let mut note_ind: usize = 5;
        let mut x: i64 = start_x;
        let mut n: i64 = 0;
        while n < marker_count
            invariant
                self.wf(),
                g == self.gap,
                w == self.window_width,
                start_x == line_start_x(w as int, g as int),
                row_y == marker_y(g as int),
                marker_count == self.fret_count - 1,
                0 <= n <= marker_count,
                markers@.len() == n,
                note_ind < NATURAL_COUNT,
                note_ind == chromatic_index(n as int),
                n == 0 ==> x == start_x,
                n > 0 ==> x == marker_x(n - 1, w as int, g as int),
                start_x <= x <= start_x + 2 * g * n,
                forall|k: int| 0 <= k < n ==> marker_matches(#[trigger] markers@[k], *self, k),
            decreases marker_count - n,
        {
            let note: Note = Note::from_index(note_ind);
            let step: i64 = if n == 0 {
                g / 2
            } else {
                match note {
                    Note::C | Note::F => g,
                    _ => 2 * g,
                }
            };
            proof {
                assert(note == chromatic_note(n as int));
                assert(step == marker_step(n as int, g as int));
                lemma_mul_nonnegative(2 * (g as int), n as int);
                lemma_mul_upper_bound(2 * (g as int), 2 * (MAX_GAP as int), n as int, MAX_FRET_COUNT as int);
                lemma_mul_is_distributive_add(2 * (g as int), n as int, 1);
            }
            x = x + step;
            markers.push(Marker {
                pos: Point { x, y: row_y },
                color: self.palette[note_ind],
                tag: NoteNameRectLabel { note_name: note },
            });
            note_ind += 1;
            if note_ind == NATURAL_COUNT {
                note_ind = 0;
            }
            n += 1;
        }

        Layout { strings, frets, markers }
    }
}

impl Layout {
    /// Resolves a clicked marker to the note name stored on it. An
    /// identifier that matches no marker is reported as `None` rather than
    /// being treated as fatal; nothing is mutated either way.
    pub fn note_at(&self, marker: usize) -> (r: Option<Note>)
        ensures
            marker < self.markers@.len() ==> r == Some(self.markers@[marker as int].tag.note_name),
            marker >= self.markers@.len() ==> r is None,
    {
        if marker < self.markers.len() {
            Some(self.markers[marker].tag.note_name)
        } else {
            None
        }
    }
}

/// Marker x positions strictly increase with the fret index: every step past
/// the nut advances the cursor by at least one gap, so no two markers share
/// an x coordinate, for any positive gap and any pair of positions.
pub proof fn lemma_marker_x_strictly_increasing(width: int, gap: int, i: int, j: int)
    requires
        0 < gap,
        0 <= i < j,
    ensures
        marker_x(i, width, gap) < marker_x(j, width, gap),
    decreases j - i,
{
    if j > i + 1 {
        lemma_marker_x_strictly_increasing(width, gap, i, j - 1);
    }
}

/// The generator's contract pins every primitive, so two layouts it produced
/// for the same configuration are identical: layout generation is
/// deterministic.
pub proof fn lemma_layout_deterministic(c: Config, l1: Layout, l2: Layout)
    requires
        layout_matches(l1, c),
        layout_matches(l2, c),
    ensures
        l1.strings@ == l2.strings@,
        l1.frets@ == l2.frets@,
        l1.markers@ == l2.markers@,
{
    assert forall|i: int| 0 <= i < l1.strings@.len() implies l1.strings@[i] == l2.strings@[i] by {
        assert(string_line_matches(l1.strings@[i], c, i));
        assert(string_line_matches(l2.strings@[i], c, i));
    }
    assert(l1.strings@ =~= l2.strings@);
    assert forall|i: int| 0 <= i < l1.frets@.len() implies l1.frets@[i] == l2.frets@[i] by {
        assert(fret_line_matches(l1.frets@[i], c, i));
        assert(fret_line_matches(l2.frets@[i], c, i));
    }
    assert(l1.frets@ =~= l2.frets@);
    assert forall|n: int| 0 <= n < l1.markers@.len() implies l1.markers@[n] == l2.markers@[n] by {
        assert(marker_matches(l1.markers@[n], c, n));
        assert(marker_matches(l2.markers@[n], c, n));
    }
    assert(l1.markers@ =~= l2.markers@);
}

} // verus!
