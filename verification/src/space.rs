//! World-space coordinates and the shared geometric helpers: fixed-point
//! positions, the grid snap used to fit the camera viewport, and the clamp
//! that keeps the camera inside a level.

use vstd::arithmetic::div_mod::{lemma_div_by_multiple, lemma_mod_multiples_basic};
use vstd::prelude::*;

verus! {

/// Largest coordinate magnitude, in milli-units, that the library accepts
/// (one billion world units). The bound is what lets every intermediate of
/// the camera and movement arithmetic stay inside `i64`.
pub const MAX_COORD_MILLI: i64 = 1_000_000_000_000;

/// A 2D vector in milli-units.
#[derive(Clone, Copy, PartialEq, Eq, Structural, Debug)]
pub struct Vec2i {
    pub x: i64,
    pub y: i64,
}

impl Vec2i {
    /// Both components are inside the accepted coordinate range.
    pub open spec fn wf(self) -> bool {
        &&& -MAX_COORD_MILLI <= self.x <= MAX_COORD_MILLI
        &&& -MAX_COORD_MILLI <= self.y <= MAX_COORD_MILLI
    }

}

/// A world-space placement: just a translation, which is all the camera and
/// movement policies read or write.
#[derive(Clone, Copy, PartialEq, Eq, Structural, Debug)]
pub struct Transform {
    pub translation: Vec2i,
}

impl Transform {
    pub open spec fn wf(self) -> bool {
        self.translation.wf()
    }
}

/// Clamp a camera offset into `[0, upper]`. When `upper <= 0` the fitted
/// viewport is at least as large as the level along this axis and the range
/// collapses; the chosen policy pins the camera to the level origin, so the
/// result is 0 and never negative.
pub open spec fn spec_clamp_offset(v: int, upper: int) -> int {
    if upper <= 0 {
        0
    } else if v <= 0 {
        0
    } else if v >= upper {
        upper
    } else {
        v
    }
}

pub fn clamp_offset(v: i64, upper: i64) -> (r: i64)
    ensures
        r == spec_clamp_offset(v as int, upper as int),
        0 <= r,
        r <= upper || r == 0,
{
    if upper <= 0 {
        0
    } else if v <= 0 {
        0
    } else if v >= upper {
        upper
    } else {
        v
    }
}

/// The clamped offset never exposes area outside the level: it is
/// non-negative and at most `max(0, upper)`, and inside a non-collapsed range
/// it leaves an already-valid offset unchanged.
pub proof fn lemma_clamp_offset_bounds(v: int, upper: int)
    ensures
        0 <= spec_clamp_offset(v, upper),
        spec_clamp_offset(v, upper) <= (if upper >= 0 { upper } else { 0 }),
        upper >= 0 && 0 <= v <= upper ==> spec_clamp_offset(v, upper) == v,
{
}

/// Snap a non-negative value to the nearest multiple of `grid`, rounding
/// halves away from zero.
pub open spec fn spec_snap_to_grid(v: int, grid: int) -> int
    recommends
        v >= 0,
        grid >= 1,
{
    ((v + grid / 2) / grid) * grid
}

pub fn snap_to_grid_u64(v: u64, grid: u64) -> (r: u64)
    requires
        1 <= grid,
        v <= u64::MAX - grid,
    ensures
        r == spec_snap_to_grid(v as int, grid as int),
        r <= v + grid / 2,
{
    let q: u64 = (v + grid / 2) / grid;
    proof {
        assert(q * grid <= v + grid / 2) by (nonlinear_arith)
            requires
                grid >= 1,
                q == (v + grid / 2) as int / grid as int,
                v + grid / 2 >= 0,
        ;
    }
    q * grid
}

/// The snapped value is a multiple of the grid.
pub proof fn lemma_snap_is_multiple(v: int, grid: int)
    requires
        grid >= 1,
    ensures
        spec_snap_to_grid(v, grid) % grid == 0,
{
    let q: int = (v + grid / 2) / grid;
    lemma_mod_multiples_basic(q, grid);
}

/// Dividing the snapped value by the grid recovers the rounded quotient.
pub proof fn lemma_snap_div(v: int, grid: int)
    requires
        grid >= 1,
    ensures
        spec_snap_to_grid(v, grid) / grid == (v + grid / 2) / grid,
{
    let q: int = (v + grid / 2) / grid;
    if q >= 0 {
        lemma_div_by_multiple(q, grid);
    } else {
        vstd::arithmetic::div_mod::lemma_div_multiples_vanish(q, grid);
    }
}

} // verus!
