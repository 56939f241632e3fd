//! Formations: the elliptical flight paths that the units of a wave share.

use crate::grid::{WinSize, SPAWN_MARGIN, STEPS_PER_PIXEL};
use crate::random::{pick_between, pick_ratio};
use vstd::prelude::*;

verus! {

/// Speed of every formation: 500 pixels per second.
pub const BASE_SPEED: i64 = 500 * STEPS_PER_PIXEL;

/// Smallest horizontal radius of a path: 80 pixels.
pub const RADIUS_X_MIN: i64 = 80 * STEPS_PER_PIXEL;

/// Largest horizontal radius of a path: 150 pixels.
pub const RADIUS_X_MAX: i64 = 150 * STEPS_PER_PIXEL;

/// Vertical radius of every path: 100 pixels.
pub const RADIUS_Y: i64 = 100 * STEPS_PER_PIXEL;

/// An elliptical flight path. All lengths are in grid steps, with the origin
/// at the centre of the viewport; `speed` is in steps per second.
///
/// A unit on the path starts at `start` and orbits `pivot`. The angle at
/// which it starts is the direction of [`Formation::heading`]; it is left to
/// the caller, who advances it from tick to tick.
#[derive(Clone, Copy, Debug, PartialEq, Eq)]
pub struct Formation {
    pub start: (i64, i64),
    pub radius: (i64, i64),
    pub pivot: (i64, i64),
    pub speed: i64,
}

/// The random choices that go into one formation.
#[derive(Clone, Copy, Debug, PartialEq, Eq)]
pub struct Draws {
    /// Whether the path starts beyond the right edge rather than the left.
    pub from_right: bool,
    pub start_y: i64,
    pub pivot_x: i64,
    pub pivot_y: i64,
    pub radius_x: i64,
}

impl Draws {
    /// Whether each choice lies in the interval that the viewport allows it.
    pub open spec fn within(self, win: WinSize) -> bool {
        &&& -win.spawn_reach_y() <= self.start_y <= win.spawn_reach_y()
        &&& -win.pivot_reach_x() <= self.pivot_x <= win.pivot_reach_x()
        &&& 0 <= self.pivot_y <= win.pivot_reach_y()
        &&& RADIUS_X_MIN <= self.radius_x <= RADIUS_X_MAX
    }

    /// Draws the five choices from the thread's random generator, each from
    /// its interval, ends included. The viewport must leave room for a pivot.
    pub fn sample(win: &WinSize) -> (draws: Draws)
        requires
            win.has_pivot_band(),
        ensures
            draws.within(*win),
    {
        let mut rng = rand::thread_rng();
        let from_right = pick_ratio(&mut rng, 1, 2);
        let reach_y = win.spawn_y();
        let start_y = pick_between(&mut rng, -reach_y, reach_y);
        let reach_x = win.pivot_x();
        let pivot_x = pick_between(&mut rng, -reach_x, reach_x);
        let pivot_y = pick_between(&mut rng, 0, win.pivot_y());
        let radius_x = pick_between(&mut rng, RADIUS_X_MIN, RADIUS_X_MAX);
        Draws { from_right, start_y, pivot_x, pivot_y, radius_x }
    }
}

impl Formation {
    /// Whether `self` is the formation that `draws` give in `win`: it starts
    /// on one of the two spawn lines, at the drawn height; its pivot and its
    /// horizontal radius are the drawn ones; its vertical radius and its
    /// speed are the fixed ones.
    pub open spec fn drawn_from(self, win: WinSize, draws: Draws) -> bool {
        &&& self.start.0 == if draws.from_right {
            win.spawn_reach_x()
        } else {
            -win.spawn_reach_x()
        }
        &&& self.start.1 == draws.start_y
        &&& self.pivot == (draws.pivot_x, draws.pivot_y)
        &&& self.radius.0 == draws.radius_x
        &&& self.radius.1 == RADIUS_Y
        &&& self.speed == BASE_SPEED
    }

    /// Whether `self` is a formation that can be synthesized for `win`.
    pub open spec fn fits(self, win: WinSize) -> bool {
        &&& self.start.0 == win.spawn_reach_x() || self.start.0 == -win.spawn_reach_x()
        &&& -win.spawn_reach_y() <= self.start.1 <= win.spawn_reach_y()
        &&& -win.pivot_reach_x() <= self.pivot.0 <= win.pivot_reach_x()
        &&& 0 <= self.pivot.1 <= win.pivot_reach_y()
        &&& RADIUS_X_MIN <= self.radius.0 <= RADIUS_X_MAX
        &&& self.radius.1 == RADIUS_Y
        &&& self.speed == BASE_SPEED
    }

    /// Builds the formation that `draws` give in `win`.
    pub fn from_draws(win: &WinSize, draws: &Draws) -> (formation: Formation)
        ensures
            formation.drawn_from(*win, *draws),
            draws.within(*win) ==> formation.fits(*win),
    {
        let reach_x = win.spawn_x();
        let x = if draws.from_right { reach_x } else { -reach_x };
        Formation {
            start: (x, draws.start_y),
            radius: (draws.radius_x, RADIUS_Y),
            pivot: (draws.pivot_x, draws.pivot_y),
            speed: BASE_SPEED,
        }
    }

    /// The vector from the pivot to the start.
    pub open spec fn offset(self) -> (int, int) {
        (self.start.0 - self.pivot.0, self.start.1 - self.pivot.1)
    }

    /// Computes [`Self::offset`]. A unit enters the path at the angle of this
    /// vector. The components are widened so that the difference is exact
    /// whatever the fields hold.
    pub fn heading(&self) -> (v: (i128, i128))
        ensures
            (v.0 as int, v.1 as int) == self.offset(),
    {
        (self.start.0 as i128 - self.pivot.0 as i128, self.start.1 as i128 - self.pivot.1 as i128)
    }

    /// The lengths of a formation that fits a viewport of `w` by `h` pixels,
    /// in grid steps. In pixels: it starts at `w/2 + 100` left or
    /// right of the centre and at most `h/2 + 100` above or below it; its
    /// pivot lies at most `w/4` left or right of the centre and from `0` to
    /// `h/3 - 50` above it; its radii are from `80` to `150` and `100`; its
    /// speed is `500`.
    pub proof fn lemma_fits_in_steps(self, win: WinSize)
        requires
            self.fits(win),
        ensures
            self.start.0 == 6 * win.w + 1200 || self.start.0 == -(6 * win.w + 1200),
            -(6 * win.h + 1200) <= self.start.1 <= 6 * win.h + 1200,
            -(3 * win.w) <= self.pivot.0 <= 3 * win.w,
            0 <= self.pivot.1 <= 4 * win.h - 600,
            960 <= self.radius.0 <= 1800,
            self.radius.1 == 1200,
            self.speed == 6000,
    {
    }

    /// The start of a formation that fits a viewport lies outside the band of
    /// pivots, on the side of its spawn line, by at least a quarter of the
    /// width and the spawn margin. So the offset is never the null vector,
    /// and the angle of entry is defined.
    pub proof fn lemma_offset_points_outward(self, win: WinSize)
        requires
            self.fits(win),
        ensures
            self.start.0 > 0 ==> self.offset().0 >= win.pivot_reach_x() + SPAWN_MARGIN,
            self.start.0 < 0 ==> self.offset().0 <= -(win.pivot_reach_x() + SPAWN_MARGIN),
            self.start.0 != 0,
            self.offset().0 != 0,
    {
    }

    /// The draws and the viewport determine the formation.
    pub proof fn lemma_drawn_from_is_a_function(self, other: Formation, win: WinSize, draws: Draws)
        requires
            self.drawn_from(win, draws),
            other.drawn_from(win, draws),
        ensures
            self == other,
    {
    }

    /// The formations that fit a viewport are exactly those that some
    /// admissible draws give.
    pub proof fn lemma_fits_iff_drawn(self, win: WinSize)
        ensures
            self.fits(win) <==> exists|draws: Draws|
                draws.within(win) && #[trigger] self.drawn_from(win, draws),
    {
        if self.fits(win) {
            let draws = Draws {
                from_right: self.start.0 == win.spawn_reach_x(),
                start_y: self.start.1,
                pivot_x: self.pivot.0,
                pivot_y: self.pivot.1,
                radius_x: self.radius.0,
            };
            assert(draws.within(win) && self.drawn_from(win, draws));
        }
    }
}

} // verus!
