//! Logical screen points and the coordinate conversions the sampler needs.

use vstd::prelude::*;

use crate::MAX_DIM;
use crate::MAX_PHYS_DIM;

verus! {

/// A cursor position in logical (DPI-independent) screen coordinates.
#[derive(Clone, Copy, Debug, PartialEq, Eq, Structural)]
pub struct LogicalPoint {
    pub x: i64,
    pub y: i64,
}

impl LogicalPoint {
    /// The point lies within the logical screen rectangle.
    pub open spec fn in_bounds(self, width: int, height: int) -> bool {
        0 <= self.x <= width && 0 <= self.y <= height
    }
}

/// Clamp a coordinate into `[0, hi]`.
pub open spec fn spec_clamp(v: int, hi: int) -> int {
    if v < 0 {
        0
    } else if v > hi {
        hi
    } else {
        v
    }
}

/// Clamp a coordinate into `[0, hi]`.
pub fn clamp_coord(v: i64, hi: i64) -> (r: i64)
    requires
        0 <= hi,
    ensures
        r == spec_clamp(v as int, hi as int),
        0 <= r <= hi,
{
    if v < 0 {
        0
    } else if v > hi {
        hi
    } else {
        v
    }
}

/// A point with both coordinates clamped onto the screen rectangle.
pub open spec fn spec_clamp_point(p: LogicalPoint, width: int, height: int) -> LogicalPoint {
    LogicalPoint {
        x: spec_clamp(p.x as int, width) as i64,
        y: spec_clamp(p.y as int, height) as i64,
    }
}

/// Clamp a point onto the screen rectangle.
pub fn clamp_point(p: LogicalPoint, width: i64, height: i64) -> (r: LogicalPoint)
    requires
        0 <= width <= MAX_DIM,
        0 <= height <= MAX_DIM,
    ensures
        r == spec_clamp_point(p, width as int, height as int),
        r.in_bounds(width as int, height as int),
{
    LogicalPoint { x: clamp_coord(p.x, width), y: clamp_coord(p.y, height) }
}

/// A physical coordinate scaled into logical space: the scale factor is
/// implied by the logical and physical extents of the same axis.
pub open spec fn spec_to_logical(phys: int, phys_dim: int, logical_dim: int) -> int {
    (phys * logical_dim) / phys_dim
}

/// Convert one physical (device-pixel) coordinate to a logical one.
pub fn to_logical(phys: i64, phys_dim: i64, logical_dim: i64) -> (r: i64)
    requires
        0 <= phys <= phys_dim,
        0 < phys_dim <= MAX_PHYS_DIM,
        0 < logical_dim <= MAX_DIM,
    ensures
        r == spec_to_logical(phys as int, phys_dim as int, logical_dim as int),
        0 <= r <= logical_dim,
{
    proof {
        let p = phys as int;
        let pd = phys_dim as int;
        let ld = logical_dim as int;
        assert(0 <= p * ld <= pd * ld) by (nonlinear_arith)
            requires
                0 <= p <= pd,
                0 < ld,
        ;
        assert(pd * ld <= 1000000000 * 65536) by (nonlinear_arith)
            requires
                0 < pd <= 1000000000,
                0 < ld <= 65536,
        ;
        assert((p * ld) / pd <= ld) by (nonlinear_arith)
            requires
                0 < pd,
                0 <= p * ld <= pd * ld,
        ;
    }
    (phys * logical_dim) / phys_dim
}

} // verus!
