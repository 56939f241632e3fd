//! The integer grid on which all lengths are measured, and the viewport.

use vstd::prelude::*;

verus! {

/// Grid steps in one pixel.
///
/// Every length in this crate is a whole number of steps. With twelve steps
/// to the pixel, the half, the third and the quarter of a whole-pixel length
/// all fall on the grid, so the geometry derived from a viewport never rounds
/// (see [`WinSize::lemma_reaches_are_exact`]).
pub const STEPS_PER_PIXEL: i64 = 12;

/// Distance between a viewport edge and the line on which units are spawned:
/// 100 pixels.
pub const SPAWN_MARGIN: i64 = 100 * STEPS_PER_PIXEL;

/// Height cut off the top of the band in which pivots are placed: 50 pixels.
pub const PIVOT_INSET: i64 = 50 * STEPS_PER_PIXEL;

/// The length of `pixels` pixels, in grid steps.
pub open spec fn px(pixels: int) -> int {
    pixels * STEPS_PER_PIXEL
}

/// Converts a whole number of pixels to grid steps.
pub fn steps(pixels: u32) -> (s: i64)
    ensures
        s == px(pixels as int),
{
    pixels as i64 * STEPS_PER_PIXEL
}

/// The visible area, in whole pixels. The origin of the coordinate system is
/// its centre.
#[derive(Clone, Copy, Debug, PartialEq, Eq)]
pub struct WinSize {
    pub w: u32,
    pub h: u32,
}

impl WinSize {
    /// Distance from the centre to either spawn line: `w/2 + 100` pixels.
    pub open spec fn spawn_reach_x(self) -> int {
        px(self.w as int) / 2 + SPAWN_MARGIN
    }

    /// Largest distance of a spawn point above or below the centre:
    /// `h/2 + 100` pixels.
    pub open spec fn spawn_reach_y(self) -> int {
        px(self.h as int) / 2 + SPAWN_MARGIN
    }

    /// Largest distance of a pivot left or right of the centre: `w/4` pixels.
    pub open spec fn pivot_reach_x(self) -> int {
        px(self.w as int) / 4
    }

    /// Largest height of a pivot above the centre: `h/3 - 50` pixels. Negative
    /// for a viewport less than 150 pixels high.
    pub open spec fn pivot_reach_y(self) -> int {
        px(self.h as int) / 3 - PIVOT_INSET
    }

    /// Whether there is any height at which a pivot can be placed, that is,
    /// whether the viewport is at least 150 pixels high.
    pub open spec fn has_pivot_band(self) -> bool {
        self.pivot_reach_y() >= 0
    }

    /// Computes [`Self::spawn_reach_x`].
    pub fn spawn_x(&self) -> (r: i64)
        ensures
            r == self.spawn_reach_x(),
    {
        steps(self.w) / 2 + SPAWN_MARGIN
    }

    /// Computes [`Self::spawn_reach_y`].
    pub fn spawn_y(&self) -> (r: i64)
        ensures
            r == self.spawn_reach_y(),
    {
        steps(self.h) / 2 + SPAWN_MARGIN
    }

    /// Computes [`Self::pivot_reach_x`].
    pub fn pivot_x(&self) -> (r: i64)
        ensures
            r == self.pivot_reach_x(),
    {
        steps(self.w) / 4
    }

    /// Computes [`Self::pivot_reach_y`].
    pub fn pivot_y(&self) -> (r: i64)
        ensures
            r == self.pivot_reach_y(),
    {
        steps(self.h) / 3 - PIVOT_INSET
    }

    /// Tells whether the viewport is high enough to place a pivot in.
    pub fn can_place_pivot(&self) -> (r: bool)
        ensures
            r == self.has_pivot_band(),
            r == (self.h >= 150),
    {
        self.pivot_y() >= 0
    }

    /// None of the four reaches loses a fraction: doubling, tripling or
    /// quadrupling them gives back the viewport's own measure.
    pub proof fn lemma_reaches_are_exact(self)
        ensures
            2 * (self.spawn_reach_x() - SPAWN_MARGIN) == px(self.w as int),
            2 * (self.spawn_reach_y() - SPAWN_MARGIN) == px(self.h as int),
            4 * self.pivot_reach_x() == px(self.w as int),
            3 * (self.pivot_reach_y() + PIVOT_INSET) == px(self.h as int),
    {
    }
}

} // verus!
