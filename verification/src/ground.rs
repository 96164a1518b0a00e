//! The scrolling ground line's state: a phase offset and the spacing of
//! the texture marks. Drawing it onto a terminal surface is the render
//! collaborator's job; the simulation only advances the offset.

use vstd::prelude::*;

verus! {

/// Cells between texture marks on the ground line.
pub const GROUND_PATTERN_INTERVAL: u16 = 15;

/// Scrolling ground line.
#[derive(Debug)]
pub struct Ground {
    /// Current scroll phase, in cells.
    pub offset: u16,
    /// Cells between texture marks.
    pub pattern_interval: u16,
}

impl Ground {
    /// A ground line at the given phase, with the standard texture
    /// spacing.
    pub fn new(offset: u16) -> (g: Self)
        ensures
            g.offset == offset,
            g.pattern_interval == GROUND_PATTERN_INTERVAL,
    {
        Ground { offset, pattern_interval: GROUND_PATTERN_INTERVAL }
    }

    /// The same ground line at a different phase.
    pub fn with_offset(self, offset: u16) -> (g: Self)
        ensures
            g.offset == offset,
            g.pattern_interval == self.pattern_interval,
    {
        Ground { offset, ..self }
    }
}

} // verus!
