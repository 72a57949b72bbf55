//! The generator's inputs, gathered in one structure and validated at
//! construction time, so that an inconsistent layout is refused rather than
//! drawn.

use vstd::prelude::*;
use crate::geometry::Rgba;
use crate::note::{Note, NATURAL_COUNT};

verus! {

/// How many strings a fretboard has.
pub const STRING_COUNT: usize = 6;

/// Upper bound on the gap, so that every coordinate the generator computes
/// fits an `i64`.
pub const MAX_GAP: i64 = 0x10000;

/// Upper bound on the window width, so that every coordinate the generator
/// computes fits an `i64`.
pub const MAX_WINDOW_WIDTH: i64 = 0x100000;

/// Upper bound on the fret count, so that every coordinate the generator
/// computes fits an `i64`.
pub const MAX_FRET_COUNT: i64 = 0x10000;

/// Why a configuration was rejected.
#[derive(Clone, Copy, Debug, PartialEq, Eq, Structural)]
pub enum ConfigError {
    /// The tuning does not hold exactly one note per string.
    TuningLength,
    /// The fret count is not positive, or too large to lay out.
    FretCount,
    /// The palette does not hold exactly one colour per natural letter.
    PaletteLength,
    /// The gap is not positive, not even, or too large to lay out.
    Gap,
    /// The window width is negative, not even, or too large to lay out.
    WindowWidth,
}

/// A tuning of the right length: one note per string.
pub open spec fn tuning_ok(tuning: Seq<Note>) -> bool {
    tuning.len() == STRING_COUNT
}

/// A usable fret count: at least one fret, and small enough that every
/// coordinate fits.
pub open spec fn fret_count_ok(fret_count: int) -> bool {
    1 <= fret_count <= MAX_FRET_COUNT
}

/// A palette of the right length: one colour per natural letter.
pub open spec fn palette_ok(palette: Seq<Rgba>) -> bool {
    palette.len() == NATURAL_COUNT
}

/// A usable gap: positive, small enough that every coordinate fits, and even
/// so that the half-gap margins and the nut offset are exact.
pub open spec fn gap_ok(gap: int) -> bool {
    0 < gap <= MAX_GAP && gap % 2 == 0
}

/// A usable window width: non-negative, small enough that every coordinate
/// fits, and even so that its midpoint is exact.
pub open spec fn window_width_ok(window_width: int) -> bool {
    0 <= window_width <= MAX_WINDOW_WIDTH && window_width % 2 == 0
}

/// Everything the layout generator consumes: the tuning (lowest string
/// first), the marker palette (one colour per natural letter), the spacing
/// gap, the window width and the fret count.
#[derive(Debug, PartialEq, Eq)]
pub struct Config {
    pub tuning: Vec<Note>,
    pub palette: Vec<Rgba>,
    pub gap: i64,
    pub window_width: i64,
    pub fret_count: i64,
}

impl Config {
    /// A constructed configuration is well formed: every validity condition
    /// that `new` checks holds of it.
    pub open spec fn wf(self) -> bool {
        &&& tuning_ok(self.tuning@)
        &&& fret_count_ok(self.fret_count as int)
        &&& palette_ok(self.palette@)
        &&& gap_ok(self.gap as int)
        &&& window_width_ok(self.window_width as int)
    }

    /// Builds a configuration, refusing one that would produce an undefined
    /// or inexact layout. Each reported error names the first input, in the
    /// order given here, that is invalid.
    pub fn new(
        tuning: Vec<Note>,
        palette: Vec<Rgba>,
        gap: i64,
        window_width: i64,
        fret_count: i64,
    ) -> (r: Result<Config, ConfigError>)
        ensures
            ({
                let t_ok = tuning_ok(tuning@);
                let f_ok = fret_count_ok(fret_count as int);
                let p_ok = palette_ok(palette@);
                let g_ok = gap_ok(gap as int);
                let w_ok = window_width_ok(window_width as int);
                match r {
                    Ok(c) => {
                        &&& t_ok && f_ok && p_ok && g_ok && w_ok
                        &&& c.tuning@ == tuning@
                        &&& c.palette@ == palette@
                        &&& c.gap == gap
                        &&& c.window_width == window_width
                        &&& c.fret_count == fret_count
                        &&& c.wf()
                    },
                    Err(ConfigError::TuningLength) => !t_ok,
                    Err(ConfigError::FretCount) => t_ok && !f_ok,
                    Err(ConfigError::PaletteLength) => t_ok && f_ok && !p_ok,
                    Err(ConfigError::Gap) => t_ok && f_ok && p_ok && !g_ok,
                    Err(ConfigError::WindowWidth) => t_ok && f_ok && p_ok && g_ok && !w_ok,
                }
            }),
    {
        if tuning.len() != STRING_COUNT {
            Err(ConfigError::TuningLength)
        } else if fret_count < 1 || fret_count > MAX_FRET_COUNT {
            Err(ConfigError::FretCount)
        } else if palette.len() != NATURAL_COUNT {
            Err(ConfigError::PaletteLength)
        } else if gap <= 0 || gap > MAX_GAP || gap % 2 != 0 {
            Err(ConfigError::Gap)
        } else if window_width < 0 || window_width > MAX_WINDOW_WIDTH || window_width % 2 != 0 {
            Err(ConfigError::WindowWidth)
        } else {
            Ok(Config { tuning, palette, gap, window_width, fret_count })
        }
    }
}

} // verus!
