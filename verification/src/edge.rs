//! Edge detection: which screen border, if any, a point touches, and the
//! sticky per-session record of the borders touched so far.

use vstd::prelude::*;

use crate::EDGE_TOLERANCE;
use crate::geom::LogicalPoint;

verus! {

/// One border of the logical screen rectangle.
#[derive(Clone, Copy, Debug, PartialEq, Eq, Structural)]
pub enum Edge {
    Top,
    Bottom,
    Left,
    Right,
}

/// Which screen edges have been touched during the session. Once a flag is
/// set it stays set until the state is reset.
#[derive(Clone, Copy, Debug, PartialEq, Eq, Structural)]
pub struct EdgeFlags {
    pub top: bool,
    pub bottom: bool,
    pub left: bool,
    pub right: bool,
}

impl EdgeFlags {
    /// No edge touched yet.
    pub open spec fn spec_clear() -> EdgeFlags {
        EdgeFlags { top: false, bottom: false, left: false, right: false }
    }

    /// All four edges touched.
    pub open spec fn all_set(self) -> bool {
        self.top && self.bottom && self.left && self.right
    }

    /// The flags with the given edge set and the rest unchanged.
    pub open spec fn spec_with(self, e: Edge) -> EdgeFlags {
        match e {
            Edge::Top => EdgeFlags { top: true, ..self },
            Edge::Bottom => EdgeFlags { bottom: true, ..self },
            Edge::Left => EdgeFlags { left: true, ..self },
            Edge::Right => EdgeFlags { right: true, ..self },
        }
    }

    /// No edge touched yet.
    pub fn clear() -> (r: EdgeFlags)
        ensures
            r == EdgeFlags::spec_clear(),
    {
        EdgeFlags { top: false, bottom: false, left: false, right: false }
    }

    /// Set the flag of one edge; the others keep their value.
    pub fn set(&mut self, e: Edge)
        ensures
            *final(self) == old(self).spec_with(e),
    {
        match e {
            Edge::Top => self.top = true,
            Edge::Bottom => self.bottom = true,
            Edge::Left => self.left = true,
            Edge::Right => self.right = true,
        }
    }

    /// Check that all four edges have been touched.
    pub fn check_all_set(&self) -> (r: bool)
        ensures
            r == self.all_set(),
    {
        self.top && self.bottom && self.left && self.right
    }
}

/// The edge, if any, that a point touches: a coordinate within
/// `EDGE_TOLERANCE` of a screen border. A point near two borders at once
/// (a corner) reports them in the fixed order left, right, top, bottom.
pub open spec fn spec_edge_of(p: LogicalPoint, width: int, height: int) -> Option<Edge> {
    if p.x <= EDGE_TOLERANCE {
        Some(Edge::Left)
    } else if p.x >= width - EDGE_TOLERANCE {
        Some(Edge::Right)
    } else if p.y <= EDGE_TOLERANCE {
        Some(Edge::Top)
    } else if p.y >= height - EDGE_TOLERANCE {
        Some(Edge::Bottom)
    } else {
        None
    }
}

/// Decide whether a point touches a screen edge.
pub fn edge_of(p: LogicalPoint, width: i64, height: i64) -> (r: Option<Edge>)
    requires
        0 <= width,
        0 <= height,
    ensures
        r == spec_edge_of(p, width as int, height as int),
{
    if p.x <= EDGE_TOLERANCE {
        Some(Edge::Left)
    } else if p.x >= width - EDGE_TOLERANCE {
        Some(Edge::Right)
    } else if p.y <= EDGE_TOLERANCE {
        Some(Edge::Top)
    } else if p.y >= height - EDGE_TOLERANCE {
        Some(Edge::Bottom)
    } else {
        None
    }
}

/// Edge flags are sticky: a flag already set stays set through any later
/// observation, so a brief excursion away from a border and back still
/// counts as touched for the rest of the session.
pub proof fn lemma_flags_sticky(f: EdgeFlags, p: LogicalPoint, width: int, height: int)
    ensures
        f.top ==> spec_flags_after(f, p, width, height).top,
        f.bottom ==> spec_flags_after(f, p, width, height).bottom,
        f.left ==> spec_flags_after(f, p, width, height).left,
        f.right ==> spec_flags_after(f, p, width, height).right,
{
}

/// The sticky flags after one point has been observed.
pub open spec fn spec_flags_after(f: EdgeFlags, p: LogicalPoint, width: int, height: int) -> EdgeFlags {
    match spec_edge_of(p, width, height) {
        Some(e) => f.spec_with(e),
        None => f,
    }
}

/// Fold one observed point into the sticky edge flags.
pub fn apply_edge(f: &mut EdgeFlags, p: LogicalPoint, width: i64, height: i64)
    requires
        0 <= width,
        0 <= height,
    ensures
        *final(f) == spec_flags_after(*old(f), p, width as int, height as int),
{
    match edge_of(p, width, height) {
        Some(e) => f.set(e),
        None => (),
    }
}

} // verus!
