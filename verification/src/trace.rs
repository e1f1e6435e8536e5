//! The bounded gesture trace, the snapshot handed to the classifier, and
//! the shared mouse state that the sampler mutates. The lock and the
//! sampling thread around this state live with the caller; every mutation
//! it can make goes through the narrow verified interface here.

use vstd::prelude::*;

use crate::MAX_DIM;
use crate::TRACE_CAPACITY;
use crate::edge::EdgeFlags;
use crate::edge::apply_edge;
use crate::edge::spec_flags_after;
use crate::geom::LogicalPoint;
use crate::geom::clamp_point;
use crate::geom::spec_clamp_point;

verus! {

/// The ordered, capacity-bounded sequence of sampled points. When full,
/// the oldest point is evicted first, so the trace always holds the most
/// recent motion.
pub struct GestureTrace {
    points: Vec<LogicalPoint>,
}

impl View for GestureTrace {
    type V = Seq<LogicalPoint>;

    closed spec fn view(&self) -> Seq<LogicalPoint> {
        self.points@
    }
}

/// A sequence after one bounded append: the new point goes at the back,
/// and the oldest point leaves if the capacity is already reached.
pub open spec fn spec_push_evict(s: Seq<LogicalPoint>, p: LogicalPoint) -> Seq<LogicalPoint> {
    if s.len() < TRACE_CAPACITY {
        s.push(p)
    } else {
        s.subrange(1, s.len() as int).push(p)
    }
}

/// A bounded append is strict FIFO: the new point goes last, the points
/// kept keep their relative order, and only the oldest point ever leaves.
pub proof fn lemma_push_evict_fifo(s: Seq<LogicalPoint>, p: LogicalPoint)
    ensures
        spec_push_evict(s, p).last() == p,
        s.len() < TRACE_CAPACITY ==> forall|i: int|
            0 <= i < s.len() ==> #[trigger] spec_push_evict(s, p)[i] == s[i],
        s.len() >= TRACE_CAPACITY ==> forall|i: int|
            0 <= i < s.len() - 1 ==> #[trigger] spec_push_evict(s, p)[i] == s[i + 1],
{
}

/// Every point of the sequence lies on the screen rectangle.
pub open spec fn all_in_bounds(s: Seq<LogicalPoint>, width: int, height: int) -> bool {
    forall|i: int| 0 <= i < s.len() ==> #[trigger] s[i].in_bounds(width, height)
}

impl GestureTrace {
    /// The trace never outgrows its capacity.
    pub open spec fn wf(self) -> bool {
        self@.len() <= TRACE_CAPACITY
    }

    /// An empty trace.
    pub fn new() -> (r: GestureTrace)
        ensures
            r@ == Seq::<LogicalPoint>::empty(),
            r.wf(),
    {
        GestureTrace { points: Vec::new() }
    }

    /// How many points the trace holds.
    pub fn len(&self) -> (n: usize)
        ensures
            n == self@.len(),
    {
        self.points.len()
    }

    /// Read one point.
    pub fn get(&self, i: usize) -> (p: LogicalPoint)
        requires
            i < self@.len(),
        ensures
            p == self@[i as int],
    {
        self.points[i]
    }

    /// Append a point, evicting the oldest one when the trace is full.
    pub fn push_evict(&mut self, p: LogicalPoint)
        requires
            old(self).wf(),
        ensures
            final(self)@ == spec_push_evict(old(self)@, p),
            final(self).wf(),
    {
        if self.points.len() >= TRACE_CAPACITY {
            self.points.remove(0);
            proof {
                assert(self.points@ == old(self)@.subrange(1, old(self)@.len() as int));
            }
        }
        self.points.push(p);
    }

    /// Drop every point.
    pub fn clear(&mut self)
        ensures
            final(self)@ == Seq::<LogicalPoint>::empty(),
            final(self).wf(),
    {
        self.points.clear();
    }

    /// A copy of the trace, point for point.
    pub fn duplicate(&self) -> (r: GestureTrace)
        ensures
            r@ == self@,
    {
        let mut pts: Vec<LogicalPoint> = Vec::new();
        let mut i: usize = 0;
        while i < self.points.len()
            invariant
                i <= self.points.len(),
                pts@ == self.points@.take(i as int),
            decreases self.points.len() - i,
        {
            pts.push(self.points[i]);
            i = i + 1;
            proof {
                assert(pts@ =~= self.points@.take(i as int));
            }
        }
        proof {
            assert(pts@ =~= self.points@);
        }
        GestureTrace { points: pts }
    }
}

/// An immutable copy of the shared state, taken under the caller's lock,
/// so the classifier never analyses a moving target.
pub struct GestureSnapshot {
    pub trace: GestureTrace,
    pub flags: EdgeFlags,
    pub width: i64,
    pub height: i64,
}

impl GestureSnapshot {
    /// The snapshot carries a valid screen rectangle, a bounded trace, and
    /// only points on that rectangle.
    pub open spec fn wf(self) -> bool {
        &&& 0 < self.width <= MAX_DIM
        &&& 0 < self.height <= MAX_DIM
        &&& self.trace.wf()
        &&& all_in_bounds(self.trace@, self.width as int, self.height as int)
    }
}

/// One sampler step at the spec level: the point is clamped onto the
/// screen, appended with eviction, and folded into the sticky edge flags.
pub open spec fn spec_sample_step(
    tr: Seq<LogicalPoint>,
    f: EdgeFlags,
    p: LogicalPoint,
    width: int,
    height: int,
) -> (Seq<LogicalPoint>, EdgeFlags) {
    let c = spec_clamp_point(p, width, height);
    (spec_push_evict(tr, c), spec_flags_after(f, c, width, height))
}

/// The trace and flags after a whole sequence of samples, oldest first.
pub open spec fn spec_state_after(
    tr: Seq<LogicalPoint>,
    f: EdgeFlags,
    samples: Seq<LogicalPoint>,
    width: int,
    height: int,
) -> (Seq<LogicalPoint>, EdgeFlags)
    decreases samples.len(),
{
    if samples.len() == 0 {
        (tr, f)
    } else {
        spec_state_after(
            spec_sample_step(tr, f, samples[0], width, height).0,
            spec_sample_step(tr, f, samples[0], width, height).1,
            samples.drop_first(),
            width,
            height,
        )
    }
}

/// Folding one more sample is one more step: a run of `record_sample`
/// calls, each of which ensures one `spec_sample_step`, therefore realizes
/// `spec_state_after` of the whole sample sequence.
pub proof fn lemma_state_after_snoc(
    tr: Seq<LogicalPoint>,
    f: EdgeFlags,
    samples: Seq<LogicalPoint>,
    p: LogicalPoint,
    width: int,
    height: int,
)
    ensures
        spec_state_after(tr, f, samples.push(p), width, height).0 == spec_sample_step(
            spec_state_after(tr, f, samples, width, height).0,
            spec_state_after(tr, f, samples, width, height).1,
            p,
            width,
            height,
        ).0,
        spec_state_after(tr, f, samples.push(p), width, height).1 == spec_sample_step(
            spec_state_after(tr, f, samples, width, height).0,
            spec_state_after(tr, f, samples, width, height).1,
            p,
            width,
            height,
        ).1,
    decreases samples.len(),
{
    reveal_with_fuel(spec_state_after, 3);
    if samples.len() == 0 {
        assert(samples.push(p)[0] == p);
        assert(samples.push(p).drop_first() =~= Seq::<LogicalPoint>::empty());
    } else {
        assert(samples.push(p)[0] == samples[0]);
        assert(samples.push(p).drop_first() =~= samples.drop_first().push(p));
        let t1 = spec_sample_step(tr, f, samples[0], width, height).0;
        let f1 = spec_sample_step(tr, f, samples[0], width, height).1;
        lemma_state_after_snoc(t1, f1, samples.drop_first(), p, width, height);
        assert(spec_state_after(tr, f, samples.push(p), width, height) == spec_state_after(
            t1,
            f1,
            samples.drop_first().push(p),
            width,
            height,
        ));
        assert(spec_state_after(tr, f, samples, width, height) == spec_state_after(
            t1,
            f1,
            samples.drop_first(),
            width,
            height,
        ));
    }
}

/// The shared gesture state: the one region both the sampler and the
/// recognition loop touch. The sampler appends points and sets edge
/// flags; the recognition loop takes snapshots and resets it between
/// sessions.
pub struct MouseState {
    trace: GestureTrace,
    flags: EdgeFlags,
    width: i64,
    height: i64,
}

impl MouseState {
    /// The points sampled so far, oldest first.
    pub closed spec fn points(self) -> Seq<LogicalPoint> {
        self.trace@
    }

    /// The sticky edge flags.
    pub closed spec fn edges(self) -> EdgeFlags {
        self.flags
    }

    /// The logical screen width the state was opened with.
    pub closed spec fn spec_width(self) -> int {
        self.width as int
    }

    /// The logical screen height the state was opened with.
    pub closed spec fn spec_height(self) -> int {
        self.height as int
    }

    /// The screen rectangle is valid, the trace bounded, and every stored
    /// point lies on the rectangle.
    pub open spec fn wf(self) -> bool {
        &&& 0 < self.spec_width() <= MAX_DIM
        &&& 0 < self.spec_height() <= MAX_DIM
        &&& self.points().len() <= TRACE_CAPACITY
        &&& all_in_bounds(self.points(), self.spec_width(), self.spec_height())
    }

    /// Fresh state for a screen of the given logical size: no points, no
    /// edges touched.
    pub fn new(width: i64, height: i64) -> (r: MouseState)
        requires
            0 < width <= MAX_DIM,
            0 < height <= MAX_DIM,
        ensures
            r.points() == Seq::<LogicalPoint>::empty(),
            r.edges() == EdgeFlags::spec_clear(),
            r.spec_width() == width as int,
            r.spec_height() == height as int,
            r.wf(),
    {
        MouseState {
            trace: GestureTrace::new(),
            flags: EdgeFlags { top: false, bottom: false, left: false, right: false },
            width,
            height,
        }
    }

    /// One sampler step: clamp the point onto the screen, append it with
    /// eviction, and fold it into the sticky edge flags.
    pub fn record_sample(&mut self, p: LogicalPoint)
        requires
            old(self).wf(),
        ensures
            (final(self).points(), final(self).edges()) == spec_sample_step(
                old(self).points(),
                old(self).edges(),
                p,
                old(self).spec_width(),
                old(self).spec_height(),
            ),
            final(self).spec_width() == old(self).spec_width(),
            final(self).spec_height() == old(self).spec_height(),
            final(self).wf(),
    {
        let c = clamp_point(p, self.width, self.height);
        self.trace.push_evict(c);
        apply_edge(&mut self.flags, c, self.width, self.height);
        proof {
            let w = self.spec_width();
            let h = self.spec_height();
            assert(all_in_bounds(self.points(), w, h)) by {
                let s = self.points();
                assert forall|i: int| 0 <= i < s.len() implies #[trigger] s[i].in_bounds(w, h) by {
                    if i < s.len() - 1 {
                        if old(self).points().len() < TRACE_CAPACITY {
                            assert(s[i] == old(self).points()[i]);
                        } else {
                            assert(s[i] == old(self).points()[i + 1]);
                        }
                    }
                }
            }
        }
    }

    /// Clear the trace and the edge flags; the screen rectangle stays.
    /// Used before the first gesture of a pair so stale motion cannot
    /// leak into the new session.
    pub fn reset(&mut self)
        ensures
            final(self).points() == Seq::<LogicalPoint>::empty(),
            final(self).edges() == EdgeFlags::spec_clear(),
            final(self).spec_width() == old(self).spec_width(),
            final(self).spec_height() == old(self).spec_height(),
            old(self).wf() ==> final(self).wf(),
    {
        self.trace.clear();
        self.flags = EdgeFlags { top: false, bottom: false, left: false, right: false };
    }

    /// An immutable copy of the trace and flags for the classifier.
    pub fn snapshot(&self) -> (snap: GestureSnapshot)
        ensures
            snap.trace@ == self.points(),
            snap.flags == self.edges(),
            snap.width as int == self.spec_width(),
            snap.height as int == self.spec_height(),
            self.wf() ==> snap.wf(),
    {
        GestureSnapshot {
            trace: self.trace.duplicate(),
            flags: self.flags,
            width: self.width,
            height: self.height,
        }
    }
}

/// After a reset, the state a sample sequence produces is a function of
/// that sequence and the screen alone: two states reset on the same
/// screen end up identical after the same samples, whatever either held
/// before the reset.
pub proof fn lemma_reset_forgets_residue(
    a_tr: Seq<LogicalPoint>,
    a_f: EdgeFlags,
    b_tr: Seq<LogicalPoint>,
    b_f: EdgeFlags,
    samples: Seq<LogicalPoint>,
    width: int,
    height: int,
)
    requires
        a_tr == Seq::<LogicalPoint>::empty(),
        a_f == EdgeFlags::spec_clear(),
        b_tr == Seq::<LogicalPoint>::empty(),
        b_f == EdgeFlags::spec_clear(),
    ensures
        spec_state_after(a_tr, a_f, samples, width, height) == spec_state_after(
            b_tr,
            b_f,
            samples,
            width,
            height,
        ),
{
}

} // verus!
