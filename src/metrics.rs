//! Metrics recorded for each entry of a history.
use vstd::prelude::*;

verus! {

/// `a + b`, or the largest `u128` when the sum does not fit.
pub open spec fn saturating_sum(a: u128, b: u128) -> u128 {
    if a + b <= u128::MAX {
        (a + b) as u128
    } else {
        u128::MAX
    }
}

/// Metrics of one history entry.
///
/// A snapshot trigger is called with the metrics that the next entry would
/// carry, and decides from them whether a snapshot is stored in place of the
/// command. Times are counted in nanoseconds.
#[derive(Clone, Copy, Debug, PartialEq, Eq, Structural)]
pub struct Metrics {
    elapsed: u128,
    elapsed_from_snapshot: u128,
    distance: usize,
}

impl Metrics {
    /// Time taken by the command of this entry, in nanoseconds.
    pub closed spec fn spec_elapsed(&self) -> u128 {
        self.elapsed
    }

    /// Time taken by all commands since the last snapshot, this one included.
    pub closed spec fn spec_elapsed_from_snapshot(&self) -> u128 {
        self.elapsed_from_snapshot
    }

    /// Number of commands since the last snapshot, this one included.
    pub closed spec fn spec_distance(&self) -> usize {
        self.distance
    }

    /// The metrics of a snapshot: nothing elapsed, no distance.
    pub open spec fn is_zero(&self) -> bool {
        &&& self.spec_elapsed() == 0
        &&& self.spec_elapsed_from_snapshot() == 0
        &&& self.spec_distance() == 0
    }

    /// These are the metrics of a command that follows an entry with the
    /// metrics `prev`: one step further from the snapshot, and its own time
    /// added, saturating, to the time since the snapshot.
    pub open spec fn follows(&self, prev: Metrics) -> bool {
        &&& self.spec_distance() == prev.spec_distance() + 1
        &&& self.spec_elapsed_from_snapshot() == saturating_sum(
            prev.spec_elapsed_from_snapshot(),
            self.spec_elapsed(),
        )
    }

    /// The metrics of a snapshot: nothing elapsed, no distance.
    pub(crate) fn zero() -> (r: Metrics)
        ensures
            r.is_zero(),
    {
        Metrics { elapsed: 0, elapsed_from_snapshot: 0, distance: 0 }
    }

    /// Elapsed time of the command of this entry, in nanoseconds.
    pub fn elapsed(&self) -> (r: u128)
        ensures
            r == self.spec_elapsed(),
    {
        self.elapsed
    }

    /// Total elapsed time of the commands since the last snapshot, in nanoseconds.
    pub fn elapsed_from_snapshot(&self) -> (r: u128)
        ensures
            r == self.spec_elapsed_from_snapshot(),
    {
        self.elapsed_from_snapshot
    }

    /// Number of commands since the last snapshot.
    pub fn distance_from_snapshot(&self) -> (r: usize)
        ensures
            r == self.spec_distance(),
    {
        self.distance
    }

    /// The metrics of a command that follows this entry and took
    /// `next_duration` nanoseconds. The accumulated time saturates.
    pub(crate) fn make_next(&self, next_duration: u128) -> (r: Metrics)
        requires
            self.spec_distance() < usize::MAX,
        ensures
            r.spec_elapsed() == next_duration,
            r.follows(*self),
    {
        let accumulated = next_duration.saturating_add(self.elapsed_from_snapshot);
        Metrics { elapsed: next_duration, elapsed_from_snapshot: accumulated, distance: 1 + self.distance }
    }
}

} // verus!
