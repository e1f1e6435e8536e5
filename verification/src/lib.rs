//! Gesture-gated confirmation engine.
//!
//! A privileged action (starting a file backup) is gated behind two
//! hand-drawn mouse gestures. This crate holds the core of that gate:
//! the bounded motion trace with its sticky edge flags, the edge
//! detector, the shape classifier, and the decision logic of a
//! recognition session. The surrounding process (cursor polling,
//! audio cues, the settings window, configuration files) lives
//! outside the library and hands it plain values.

use vstd::prelude::*;

pub mod classify;
pub mod config;
pub mod edge;
pub mod geom;
pub mod session;
pub mod trace;

verus! {

/// Largest accepted logical screen dimension (width or height).
pub const MAX_DIM: i64 = 65536;

/// Largest accepted physical screen dimension, in device pixels.
pub const MAX_PHYS_DIM: i64 = 1000000000;

/// Most points a gesture trace holds; the oldest point is evicted first.
pub const TRACE_CAPACITY: usize = 4096;

/// Fewest points any trace needs before a shape can match at all.
pub const MIN_TRACE_POINTS: usize = 12;

/// A point within this distance of a screen border touches that edge.
pub const EDGE_TOLERANCE: i64 = 10;

} // verus!
