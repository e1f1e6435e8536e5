use gesture_gate::MIN_TRACE_POINTS;
use gesture_gate::TRACE_CAPACITY;
use gesture_gate::classify::Segno;
use gesture_gate::classify::classify;
use gesture_gate::geom::LogicalPoint;
use gesture_gate::session::SessionStatus;
use gesture_gate::session::session_step;
use gesture_gate::trace::GestureSnapshot;
use gesture_gate::trace::MouseState;

fn record_all(state: &mut MouseState, pts: &[(i64, i64)]) {
    for &(x, y) in pts {
        state.record_sample(LogicalPoint { x, y });
    }
}

fn snapshot_of(pts: &[(i64, i64)]) -> GestureSnapshot {
    let mut state = MouseState::new(1000, 1000);
    record_all(&mut state, pts);
    state.snapshot()
}

/// 24 points of a circle of radius 100 around (500, 500), 15 degrees apart.
fn circle_points() -> Vec<(i64, i64)> {
    vec![
        (600, 500),
        (597, 526),
        (587, 550),
        (571, 571),
        (550, 587),
        (526, 597),
        (500, 600),
        (474, 597),
        (450, 587),
        (429, 571),
        (413, 550),
        (403, 526),
        (400, 500),
        (403, 474),
        (413, 450),
        (429, 429),
        (450, 413),
        (474, 403),
        (500, 400),
        (526, 403),
        (550, 413),
        (571, 429),
        (587, 450),
        (597, 474),
    ]
}

/// A cyclic tour along all four screen edges of a 1000 by 1000 screen,
/// 5 logical units in from each border.
fn rectangle_points() -> Vec<(i64, i64)> {
    let mut pts: Vec<(i64, i64)> = Vec::new();
    let mut x: i64 = 5;
    while x <= 995 {
        pts.push((x, 5));
        x += 110;
    }
    let mut y: i64 = 115;
    while y <= 995 {
        pts.push((995, y));
        y += 110;
    }
    let mut x: i64 = 885;
    while x >= 5 {
        pts.push((x, 995));
        x -= 110;
    }
    let mut y: i64 = 885;
    while y > 5 {
        pts.push((5, y));
        y -= 110;
    }
    pts
}

/// A near-horizontal stroke around height 500 spanning x 300 to 700.
fn dash_points() -> Vec<(i64, i64)> {
    (0..17).map(|k| (300 + 25 * k, 500 + (k % 3) - 1)).collect()
}

#[test]
fn short_trace_matches_no_shape() {
    let pts: Vec<(i64, i64)> = circle_points().into_iter().take(MIN_TRACE_POINTS - 1).collect();
    let snap = snapshot_of(&pts);
    assert!(!classify(&snap, Segno::Rettangolo));
    assert!(!classify(&snap, Segno::Cerchio));
    assert!(!classify(&snap, Segno::Meno));
}

#[test]
fn circle_trace_is_a_circle_only() {
    let snap = snapshot_of(&circle_points());
    assert!(classify(&snap, Segno::Cerchio));
    assert!(!classify(&snap, Segno::Rettangolo));
    assert!(!classify(&snap, Segno::Meno));
}

#[test]
fn edge_tour_is_a_rectangle_only() {
    let snap = snapshot_of(&rectangle_points());
    assert!(snap.flags.top && snap.flags.bottom && snap.flags.left && snap.flags.right);
    assert!(classify(&snap, Segno::Rettangolo));
    assert!(!classify(&snap, Segno::Cerchio));
    assert!(!classify(&snap, Segno::Meno));
}

#[test]
fn dash_trace_is_a_dash_only() {
    let snap = snapshot_of(&dash_points());
    assert!(classify(&snap, Segno::Meno));
    assert!(!classify(&snap, Segno::Rettangolo));
    assert!(!classify(&snap, Segno::Cerchio));
}

#[test]
fn back_and_forth_edge_tour_is_no_rectangle() {
    let forward = rectangle_points();
    let mut pts = forward.clone();
    for &p in forward.iter().rev().skip(1) {
        pts.push(p);
    }
    let snap = snapshot_of(&pts);
    assert!(snap.flags.top && snap.flags.bottom && snap.flags.left && snap.flags.right);
    assert!(!classify(&snap, Segno::Rettangolo));
}

#[test]
fn reset_forgets_prior_session_residue() {
    let mut stale = MouseState::new(1000, 1000);
    record_all(&mut stale, &rectangle_points());
    stale.reset();
    record_all(&mut stale, &dash_points());
    let mut fresh = MouseState::new(1000, 1000);
    record_all(&mut fresh, &dash_points());
    let a = stale.snapshot();
    let b = fresh.snapshot();
    assert_eq!(a.flags, b.flags);
    assert_eq!(a.trace.len(), b.trace.len());
    for i in 0..a.trace.len() {
        assert_eq!(a.trace.get(i), b.trace.get(i));
    }
    assert!(classify(&a, Segno::Meno));
    assert!(!classify(&a, Segno::Rettangolo));
}

#[test]
fn reset_clears_edge_flags() {
    let mut state = MouseState::new(1000, 1000);
    record_all(&mut state, &rectangle_points());
    let before = state.snapshot();
    assert!(before.flags.top && before.flags.bottom && before.flags.left && before.flags.right);
    state.reset();
    let after = state.snapshot();
    assert!(!after.flags.top && !after.flags.bottom && !after.flags.left && !after.flags.right);
    assert_eq!(after.trace.len(), 0);
}

#[test]
fn full_trace_evicts_oldest_first() {
    let mut state = MouseState::new(1000, 1000);
    for i in 0..(TRACE_CAPACITY + 5) {
        let v = (i % 900) as i64 + 50;
        state.record_sample(LogicalPoint { x: v, y: 500 });
    }
    let snap = state.snapshot();
    assert_eq!(snap.trace.len(), TRACE_CAPACITY);
    let expect_first = (5 % 900) as i64 + 50;
    assert_eq!(snap.trace.get(0), LogicalPoint { x: expect_first, y: 500 });
}

#[test]
fn samples_are_clamped_onto_the_screen() {
    let mut state = MouseState::new(1000, 1000);
    state.record_sample(LogicalPoint { x: -50, y: 2000 });
    let snap = state.snapshot();
    assert_eq!(snap.trace.get(0), LogicalPoint { x: 0, y: 1000 });
    assert!(snap.flags.left);
}

#[test]
fn session_keeps_sampling_before_timeout_without_match() {
    let snap = snapshot_of(&dash_points());
    let st = session_step(Segno::Cerchio, &snap, 500, 10_000, false, true);
    assert_eq!(st, SessionStatus::Sampling);
}

#[test]
fn session_times_out_only_after_the_window() {
    let snap = snapshot_of(&dash_points());
    assert_eq!(session_step(Segno::Cerchio, &snap, 9_999, 10_000, false, true), SessionStatus::Sampling);
    assert_eq!(session_step(Segno::Cerchio, &snap, 10_000, 10_000, false, true), SessionStatus::TimedOut);
}

#[test]
fn session_matches_as_soon_as_the_shape_is_there() {
    let snap = snapshot_of(&circle_points());
    assert_eq!(session_step(Segno::Cerchio, &snap, 0, 10_000, false, true), SessionStatus::Matched);
}

#[test]
fn cancellation_ends_a_session_without_a_match() {
    let snap = snapshot_of(&circle_points());
    assert_eq!(
        session_step(Segno::Cerchio, &snap, 0, 10_000, true, true),
        SessionStatus::Cancelled
    );
}

#[test]
fn failed_cursor_query_is_a_distinct_outcome() {
    let snap = snapshot_of(&circle_points());
    assert_eq!(
        session_step(Segno::Cerchio, &snap, 0, 10_000, false, false),
        SessionStatus::SamplingFailed
    );
}
