//! Conversion between a state and its snapshot.
use std::marker::PhantomData;
use vstd::prelude::*;

verus! {

/// A state that converts to and from a snapshot of itself, without loss:
/// restoring a snapshot gives back the state it was made from.
pub trait Snapshot: Sized {
    /// Type of snapshot.
    type Snapshot;

    /// The state that `snapshot` restores. An implementation that is
    /// verified defines it; the default says nothing.
    open spec fn restored(snapshot: Self::Snapshot) -> Self {
        arbitrary()
    }

    /// Creates a snapshot of this state.
    fn to_snapshot(&self) -> (r: Self::Snapshot)
        ensures
            Self::restored(r) == *self,
    ;

    /// Restores a state from a snapshot.
    fn from_snapshot(snapshot: &Self::Snapshot) -> (r: Self)
        ensures
            r == Self::restored(*snapshot),
    ;
}

/// A clone of a value equals the value.
pub open spec fn clone_is_exact<T: Clone>() -> bool {
    forall|x: T, y: T| call_ensures(T::clone, (&x,), y) ==> y == x
}

/// How the engine converts between a state and its snapshot.
pub(crate) trait SnapshotHandler {
    type State;
    type Snapshot;

    /// Restoring `snapshot` gives `state`.
    spec fn restores(snapshot: Self::Snapshot, state: Self::State) -> bool;

    /// Restoring a snapshot made from a state gives that state.
    spec fn faithful() -> bool;

    fn to_snapshot(state: &Self::State) -> (r: Self::Snapshot)
        ensures
            Self::faithful() ==> Self::restores(r, *state),
    ;

    fn from_snapshot(snapshot: &Self::Snapshot) -> (r: Self::State)
        ensures
            forall|x: Self::State| Self::restores(*snapshot, x) ==> r == x,
    ;
}

/// Snapshots of a [Clone] state are clones of it.
pub(crate) struct CloneSnapshot<T>(PhantomData<T>);

impl<T: Clone> SnapshotHandler for CloneSnapshot<T> {
    type State = T;
    type Snapshot = T;

    open spec fn restores(snapshot: T, state: T) -> bool {
        forall|y: T| call_ensures(T::clone, (&snapshot,), y) ==> y == state
    }

    open spec fn faithful() -> bool {
        clone_is_exact::<T>()
    }

    fn to_snapshot(state: &T) -> (r: T) {
        state.clone()
    }

    fn from_snapshot(snapshot: &T) -> (r: T) {
        snapshot.clone()
    }
}

/// Snapshots of a [Snapshot] state are made by its own conversion.
pub(crate) struct TraitSnapshot<T>(PhantomData<T>);

impl<T: Snapshot> SnapshotHandler for TraitSnapshot<T> {
    type State = T;
    type Snapshot = T::Snapshot;

    open spec fn restores(snapshot: T::Snapshot, state: T) -> bool {
        T::restored(snapshot) == state
    }

    open spec fn faithful() -> bool {
        true
    }

    fn to_snapshot(state: &T) -> (r: T::Snapshot) {
        state.to_snapshot()
    }

    fn from_snapshot(snapshot: &T::Snapshot) -> (r: T) {
        T::from_snapshot(snapshot)
    }
}

impl Snapshot for i32 {
    type Snapshot = i32;

    open spec fn restored(snapshot: i32) -> i32 {
        snapshot
    }

    fn to_snapshot(&self) -> (r: i32) {
        *self
    }

    fn from_snapshot(snapshot: &i32) -> (r: i32) {
        *snapshot
    }
}

impl Snapshot for i64 {
    type Snapshot = i64;

    open spec fn restored(snapshot: i64) -> i64 {
        snapshot
    }

    fn to_snapshot(&self) -> (r: i64) {
        *self
    }

    fn from_snapshot(snapshot: &i64) -> (r: i64) {
        *snapshot
    }
}

impl Snapshot for u64 {
    type Snapshot = u64;

    open spec fn restored(snapshot: u64) -> u64 {
        snapshot
    }

    fn to_snapshot(&self) -> (r: u64) {
        *self
    }

    fn from_snapshot(snapshot: &u64) -> (r: u64) {
        *snapshot
    }
}

impl Snapshot for String {
    type Snapshot = String;

    open spec fn restored(snapshot: String) -> String {
        snapshot
    }

    fn to_snapshot(&self) -> (r: String) {
        self.clone()
    }

    fn from_snapshot(snapshot: &String) -> (r: String) {
        snapshot.clone()
    }
}

} // verus!
