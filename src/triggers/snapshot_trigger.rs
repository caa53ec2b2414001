//! Predefined snapshot triggers.
use crate::interface::{always_snapshots, never_snapshots, total_trigger};
use crate::metrics::Metrics;
use vstd::prelude::*;

verus! {

/// A trigger that takes a snapshot once the commands since the last
/// snapshot have taken more than `duration` nanoseconds in all.
pub fn snapshot_by_total_elapsed(duration: u128) -> (r: impl Fn(&Metrics) -> bool)
    ensures
        total_trigger(r),
        forall|m: Metrics, b: bool|
            #[trigger] r.ensures((&m,), b) ==> b == (duration < m.spec_elapsed_from_snapshot()),
{
    move |metrics: &Metrics| -> (b: bool)
        ensures
            b == (duration < metrics.spec_elapsed_from_snapshot()),
        { duration < metrics.elapsed_from_snapshot() }
}

/// A trigger that takes a snapshot once more than `distance` commands
/// follow the last snapshot.
pub fn snapshot_by_distance(distance: usize) -> (r: impl Fn(&Metrics) -> bool)
    ensures
        total_trigger(r),
        forall|m: Metrics, b: bool|
            #[trigger] r.ensures((&m,), b) ==> b == (distance < m.spec_distance()),
{
    move |metrics: &Metrics| -> (b: bool)
        ensures
            b == (distance < metrics.spec_distance()),
        { distance < metrics.distance_from_snapshot() }
}

/// A trigger that takes a snapshot on every edit: no command is stored.
pub fn snapshot_always() -> (r: impl Fn(&Metrics) -> bool)
    ensures
        total_trigger(r),
        always_snapshots(r),
{
    |_metrics: &Metrics| -> (b: bool)
        ensures
            b,
        { true }
}

/// A trigger that never takes a snapshot: every version is regenerated
/// from the oldest entry.
pub fn snapshot_never() -> (r: impl Fn(&Metrics) -> bool)
    ensures
        total_trigger(r),
        never_snapshots(r),
{
    |_metrics: &Metrics| -> (b: bool)
        ensures
            !b,
        { false }
}

} // verus!
