//! The natural note letters and the cyclic order in which successive fret
//! positions are named.

use vstd::prelude::*;

verus! {

/// The seven natural note letters.
#[derive(Clone, Copy, Debug, PartialEq, Eq, Structural)]
pub enum Note {
    A,
    B,
    C,
    D,
    E,
    F,
    G,
}

/// How many letters the natural cycle holds.
pub const NATURAL_COUNT: usize = 7;

/// The position of the first marker's note in the natural cycle: markers
/// start at "F", index 5.
pub const FIRST_MARKER_INDEX: usize = 5;

/// The letter at position `k` of the cycle `A..G`.
pub open spec fn letter_at(k: int) -> Note {
    if k == 0 {
        Note::A
    } else if k == 1 {
        Note::B
    } else if k == 2 {
        Note::C
    } else if k == 3 {
        Note::D
    } else if k == 4 {
        Note::E
    } else if k == 5 {
        Note::F
    } else {
        Note::G
    }
}

/// The cyclic index named by the marker at fret position `n`, defined as the
/// process that produces it: start at index 5 and step by one per position,
/// wrapping after "G".
pub open spec fn chromatic_index(n: int) -> int
    decreases n,
{
    if n <= 0 {
        FIRST_MARKER_INDEX as int
    } else {
        let p = chromatic_index(n - 1);
        if p + 1 == NATURAL_COUNT as int {
            0
        } else {
            p + 1
        }
    }
}

/// The note named by the marker at fret position `n`.
pub open spec fn chromatic_note(n: int) -> Note {
    letter_at(chromatic_index(n))
}

/// The letters reached by a single gap: "C" and "F" immediately follow the
/// letters with no sharp ("B" and "E"), so only one semitone separates them
/// from their predecessor.
pub open spec fn single_gap(n: Note) -> bool {
    n == Note::C || n == Note::F
}

/// The cyclic index always stays inside the natural cycle.
pub proof fn lemma_chromatic_index_bounds(n: int)
    ensures
        0 <= chromatic_index(n) < NATURAL_COUNT as int,
    decreases n,
{
    if n > 0 {
        lemma_chromatic_index_bounds(n - 1);
    }
}

/// The cyclic index after `n` steps equals `(5 + n) mod 7`, independent of
/// anything else a step does.
pub proof fn lemma_chromatic_index_closed_form(n: int)
    requires
        0 <= n,
    ensures
        chromatic_index(n) == (5 + n) % 7,
    decreases n,
{
    if n > 0 {
        lemma_chromatic_index_closed_form(n - 1);
        lemma_chromatic_index_bounds(n - 1);
    }
}

impl Note {
    /// The letter shown on a label for this note.
    pub open spec fn spec_letter(self) -> char {
        match self {
            Note::A => 'A',
            Note::B => 'B',
            Note::C => 'C',
            Note::D => 'D',
            Note::E => 'E',
            Note::F => 'F',
            Note::G => 'G',
        }
    }

    /// Returns the letter shown on a label for this note.
    pub fn letter(self) -> (c: char)
        ensures
            c == self.spec_letter(),
    {
        match self {
            Note::A => 'A',
            Note::B => 'B',
            Note::C => 'C',
            Note::D => 'D',
            Note::E => 'E',
            Note::F => 'F',
            Note::G => 'G',
        }
    }

    /// Returns the letter at position `k` of the cycle `A..G`.
    pub fn from_index(k: usize) -> (n: Note)
        requires
            k < NATURAL_COUNT,
        ensures
            n == letter_at(k as int),
    {
        if k == 0 {
            Note::A
        } else if k == 1 {
            Note::B
        } else if k == 2 {
            Note::C
        } else if k == 3 {
            Note::D
        } else if k == 4 {
            Note::E
        } else if k == 5 {
            Note::F
        } else {
            Note::G
        }
    }
}

} // verus!
