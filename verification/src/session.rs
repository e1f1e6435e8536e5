//! The recognition session: one bounded attempt to observe a gesture.
//! The decision of each poll cycle is a pure function here; the caller
//! supplies the snapshot, the elapsed time, a cancellation signal and
//! whether the cursor query still works, performs the sleeping and
//! sampling itself, and loops until the status turns terminal.

use vstd::prelude::*;

use crate::classify::Segno;
use crate::classify::classify;
use crate::classify::spec_classify;
use crate::trace::GestureSnapshot;

verus! {

/// Where one poll cycle leaves the session.
#[derive(Clone, Copy, Debug, PartialEq, Eq, Structural)]
pub enum SessionStatus {
    /// No decision yet: keep sampling and poll again.
    Sampling,
    /// The snapshot matched the expected shape; the session succeeded.
    Matched,
    /// The window closed without a match: the expected, non-exceptional
    /// failure of a session.
    TimedOut,
    /// The caller asked the session to stop before a decision fell.
    Cancelled,
    /// The cursor position query failed; fatal to the session, distinct
    /// from a gesture that simply was not drawn.
    SamplingFailed,
}

impl SessionStatus {
    /// A session stops at this status.
    pub open spec fn is_terminal(self) -> bool {
        self != SessionStatus::Sampling
    }
}

/// The status one poll cycle ends in. A sampling failure outranks
/// everything, then an external cancellation; after that a match wins
/// immediately, the timeout is only declared when nothing matched, and
/// otherwise the session keeps sampling.
pub open spec fn spec_session_step(
    sampling_ok: bool,
    cancelled: bool,
    matched: bool,
    elapsed_ms: u64,
    timeout_ms: u64,
) -> SessionStatus {
    if !sampling_ok {
        SessionStatus::SamplingFailed
    } else if cancelled {
        SessionStatus::Cancelled
    } else if matched {
        SessionStatus::Matched
    } else if elapsed_ms >= timeout_ms {
        SessionStatus::TimedOut
    } else {
        SessionStatus::Sampling
    }
}

/// Decide one poll cycle of a recognition session.
pub fn session_step(
    expected: Segno,
    snap: &GestureSnapshot,
    elapsed_ms: u64,
    timeout_ms: u64,
    cancelled: bool,
    sampling_ok: bool,
) -> (st: SessionStatus)
    requires
        snap.wf(),
    ensures
        st == spec_session_step(
            sampling_ok,
            cancelled,
            spec_classify(snap.trace@, snap.flags, snap.width as int, snap.height as int, expected),
            elapsed_ms,
            timeout_ms,
        ),
{
    if !sampling_ok {
        return SessionStatus::SamplingFailed;
    }
    if cancelled {
        return SessionStatus::Cancelled;
    }
    if classify(snap, expected) {
        return SessionStatus::Matched;
    }
    if elapsed_ms >= timeout_ms {
        return SessionStatus::TimedOut;
    }
    SessionStatus::Sampling
}

/// While the cursor query works, nobody cancels, no snapshot matches and
/// the timeout has not elapsed, a session never ends: `recognize` cannot
/// return early.
pub proof fn lemma_no_early_return(
    sampling_ok: bool,
    cancelled: bool,
    matched: bool,
    elapsed_ms: u64,
    timeout_ms: u64,
)
    requires
        sampling_ok,
        !cancelled,
        !matched,
        elapsed_ms < timeout_ms,
    ensures
        !spec_session_step(sampling_ok, cancelled, matched, elapsed_ms, timeout_ms).is_terminal(),
{
}

/// As soon as a snapshot matches, an uncancelled session ends with a
/// match, however much of the window is left.
pub proof fn lemma_match_returns_at_once(
    sampling_ok: bool,
    cancelled: bool,
    matched: bool,
    elapsed_ms: u64,
    timeout_ms: u64,
)
    requires
        sampling_ok,
        !cancelled,
        matched,
    ensures
        spec_session_step(sampling_ok, cancelled, matched, elapsed_ms, timeout_ms)
            == SessionStatus::Matched,
{
}

/// A session that ends in a timeout really saw the whole window out and
/// never had a matching snapshot at the final poll.
pub proof fn lemma_timeout_is_honest(
    sampling_ok: bool,
    cancelled: bool,
    matched: bool,
    elapsed_ms: u64,
    timeout_ms: u64,
)
    requires
        spec_session_step(sampling_ok, cancelled, matched, elapsed_ms, timeout_ms)
            == SessionStatus::TimedOut,
    ensures
        sampling_ok,
        !cancelled,
        !matched,
        elapsed_ms >= timeout_ms,
{
}

} // verus!
