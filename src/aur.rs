//! [Aur]: [Aur](crate::ur::Ur) whose commands and trigger may be shared
//! between threads.
use crate::gur::{Gur, GurBuilder};
use crate::interface::{
    pure_command, pure_conditional, total_trigger, trigger_always, trigger_decides, trigger_never,
    Chronicle,
    IBuilder, IEditA, ITriggerA, IUndoRedo,
};
use crate::metrics::Metrics;
use crate::snapshot::{Snapshot, TraitSnapshot};
use std::marker::PhantomData;
use vstd::prelude::*;

verus! {

/// A builder to create a [Aur].
pub struct AurBuilder<T, F = fn(T) -> T, G = fn(T) -> Option<T>, P = fn(&Metrics) -> bool> {
    inner: GurBuilder<P>,
    kinds: PhantomData<(T, F, G)>,
}

impl<T: Snapshot, F: Fn(T) -> T + Send + Sync, G: Fn(T) -> Option<T> + Send + Sync, P: Fn(&Metrics) -> bool + Send + Sync> AurBuilder<T, F, G, P> {
    /// The maximum number of versions in reach; 0 means no limit.
    pub closed spec fn spec_capacity(&self) -> usize {
        self.inner.capacity
    }

    /// The snapshot trigger; None means that no snapshot is taken on edits.
    pub closed spec fn spec_trigger(&self) -> Option<P> {
        self.inner.snapshot_trigger
    }

    /// Creates a new builder: no capacity limit, no snapshot trigger.
    pub fn new() -> (r: Self)
        ensures
            r.spec_capacity() == 0,
            r.spec_trigger() is None,
    {
        AurBuilder { inner: GurBuilder::new(), kinds: PhantomData }
    }

    /// Sets the maximum number of versions kept in reach of undo.
    ///
    /// When more changes are applied, the oldest version leaves. A capacity
    /// of 0 means no limit. Entries out of reach stay in memory until a
    /// snapshot is the oldest entry in reach, since the commands after them
    /// replay from them: the capacity bounds the versions in reach at all
    /// times, and the memory only eventually.
    pub fn capacity(self, capacity: usize) -> (r: Self)
        ensures
            r.spec_capacity() == capacity,
            r.spec_trigger() == self.spec_trigger(),
    {
        AurBuilder { inner: self.inner.capacity(capacity), kinds: PhantomData }
    }

    /// Sets the closure that decides, on each edit, whether a snapshot of
    /// the new state is stored in place of the command.
    pub fn snapshot_trigger(self, f: P) -> (r: Self)
        ensures
            r.spec_capacity() == self.spec_capacity(),
            r.spec_trigger() == Some(f),
    {
        AurBuilder { inner: self.inner.snapshot_trigger(f), kinds: PhantomData }
    }

    /// Creates a new [Aur] whose only version is `initial_state`.
    pub fn build(self, initial_state: T) -> (r: Aur<T, F, G, P>)
        requires
            self.spec_trigger() matches Some(f) ==> total_trigger(f),
        ensures
            r.wf(),
            r@ == (Chronicle { versions: seq![initial_state], cursor: 0 }),
            r.spec_capacity() == self.spec_capacity(),
            r.spec_trigger() == self.spec_trigger(),
            r.current_metrics().is_zero(),
            r.all_snapshots(),
            r.only_first_snapshot(),
    {
        Aur::new(self.inner.build(initial_state))
    }
}

impl<T: Snapshot, F: Fn(T) -> T + Send + Sync, G: Fn(T) -> Option<T> + Send + Sync, P: Fn(&Metrics) -> bool + Send + Sync> Default for AurBuilder<T, F, G, P> {
    fn default() -> (r: Self)
        ensures
            r.spec_capacity() == 0,
            r.spec_trigger() is None,
    {
        Self::new()
    }
}

impl<T: Snapshot, F: Fn(T) -> T + Send + Sync, G: Fn(T) -> Option<T> + Send + Sync, P: Fn(&Metrics) -> bool + Send + Sync> IBuilder for AurBuilder<T, F, G, P> {
    type State = T;

    type Target = Aur<T, F, G, P>;

    open spec fn capacity_setting(&self) -> usize {
        self.spec_capacity()
    }

    open spec fn ready(&self) -> bool {
        self.spec_trigger() matches Some(f) ==> total_trigger(f)
    }

    fn capacity(self, capacity: usize) -> (r: Self) {
        AurBuilder::capacity(self, capacity)
    }

    fn build(self, initial_state: T) -> (r: Aur<T, F, G, P>) {
        AurBuilder::build(self, initial_state)
    }
}

impl<T: Snapshot, F: Fn(T) -> T + Send + Sync, G: Fn(T) -> Option<T> + Send + Sync, P: Fn(&Metrics) -> bool + Send + Sync> ITriggerA<P> for AurBuilder<T, F, G, P> {
    open spec fn trigger_setting(&self) -> Option<P> {
        self.spec_trigger()
    }

    fn snapshot_trigger(self, f: P) -> (r: Self) {
        AurBuilder::snapshot_trigger(self, f)
    }
}

/// Undo-redo for a state that implements [Snapshot], with commands and a
/// trigger that are [Send] and [Sync].
///
/// Each edit stores its command, or a snapshot when the trigger asks for
/// one; undo and redo regenerate the target version from the nearest
/// snapshot before it.
#[verifier::reject_recursive_types(T)]
pub struct Aur<T: Snapshot, F = fn(T) -> T, G = fn(T) -> Option<T>, P = fn(&Metrics) -> bool>(
    Gur<T, TraitSnapshot<T>, F, G, P>,
);

impl<T: Snapshot, F: Fn(T) -> T + Send + Sync, G: Fn(T) -> Option<T> + Send + Sync, P: Fn(&Metrics) -> bool + Send + Sync> View for Aur<
    T,
    F,
    G,
    P,
> {
    type V = Chronicle<T>;

    closed spec fn view(&self) -> Chronicle<T> {
        self.0.view()
    }
}

impl<T: Snapshot, F: Fn(T) -> T + Send + Sync, G: Fn(T) -> Option<T> + Send + Sync, P: Fn(&Metrics) -> bool + Send + Sync> Aur<T, F, G, P> {
    /// The object is consistent: its history regenerates every version in
    /// reach, and it holds the current one.
    pub closed spec fn wf(&self) -> bool {
        self.0.wf()
    }

    /// The maximum number of versions in reach; 0 means no limit.
    pub closed spec fn spec_capacity(&self) -> nat {
        self.0.spec_capacity()
    }

    /// The snapshot trigger; None means that no snapshot is taken on edits.
    pub closed spec fn spec_trigger(&self) -> Option<P> {
        self.0.snapshot_trigger
    }

    /// The metrics of the entry of the current version.
    pub closed spec fn current_metrics(&self) -> Metrics {
        self.0.current_metrics()
    }

    /// The current version is stored as a snapshot, not as a command.
    pub closed spec fn current_is_snapshot(&self) -> bool {
        self.0.current_is_snapshot()
    }

    /// Every entry of the history is a snapshot.
    pub closed spec fn all_snapshots(&self) -> bool {
        self.0.all_snapshots()
    }

    /// Every entry of the history but the oldest is a command: every
    /// version is regenerated from the oldest entry.
    pub closed spec fn only_first_snapshot(&self) -> bool {
        self.0.only_first_snapshot()
    }

    /// The oldest entry kept in the history is a snapshot, from which every
    /// version in reach can be regenerated.
    pub closed spec fn oldest_is_snapshot(&self) -> bool {
        self.0.history.inner@[0].generator is Snapshot
    }

    fn new(inner: Gur<T, TraitSnapshot<T>, F, G, P>) -> (r: Self)
        ensures
            r.0 == inner,
    {
        Aur(inner)
    }

    /// The current state.
    pub fn get(&self) -> (r: &T)
        requires
            self.wf(),
        ensures
            *r == self@.current(),
    {
        self.0.get()
    }

    /// Consumes the object and returns its current state.
    pub fn into_inner(self) -> (r: T)
        requires
            self.wf(),
        ensures
            r == self@.current(),
    {
        self.0.into_inner()
    }

    /// The capacity; None when there is no limit.
    pub fn capacity(&self) -> (r: Option<usize>)
        ensures
            r == (if self.spec_capacity() > 0 {
                Some(self.spec_capacity() as usize)
            } else {
                None
            }),
    {
        self.0.capacity()
    }

    /// How many changes can be undone.
    pub fn undoable_count(&self) -> (r: usize)
        requires
            self.wf(),
        ensures
            r == self@.undoable(),
    {
        self.0.undoable_count()
    }

    /// How many changes can be redone.
    pub fn redoable_count(&self) -> (r: usize)
        requires
            self.wf(),
        ensures
            r == self@.redoable(),
    {
        self.0.redoable_count()
    }

    /// Undoes the last change; None, with nothing changed, when there is
    /// none to undo.
    pub fn undo(&mut self) -> (r: Option<&T>)
        requires
            old(self).wf(),
        ensures
            final(self).wf(),
            final(self).spec_capacity() == old(self).spec_capacity(),
            final(self).spec_trigger() == old(self).spec_trigger(),
            final(self).all_snapshots() == old(self).all_snapshots(),
            final(self).only_first_snapshot() == old(self).only_first_snapshot(),
            match old(self)@.undone(1) {
                Some(v) => final(self)@ == v && r == Some(&final(self)@.current()),
                None => final(self)@ == old(self)@ && r is None,
            },
    {
        self.0.undo_multi(1)
    }

    /// Undoes `count` changes; None, with nothing changed, when fewer can
    /// be undone. A count of 0 changes nothing.
    pub fn undo_multi(&mut self, count: usize) -> (r: Option<&T>)
        requires
            old(self).wf(),
        ensures
            final(self).wf(),
            final(self).spec_capacity() == old(self).spec_capacity(),
            final(self).spec_trigger() == old(self).spec_trigger(),
            final(self).all_snapshots() == old(self).all_snapshots(),
            final(self).only_first_snapshot() == old(self).only_first_snapshot(),
            match old(self)@.undone(count as int) {
                Some(v) => final(self)@ == v && r == Some(&final(self)@.current()),
                None => final(self)@ == old(self)@ && r is None,
            },
    {
        self.0.undo_multi(count)
    }

    /// Redoes the last undone change; None, with nothing changed, when
    /// there is none to redo.
    pub fn redo(&mut self) -> (r: Option<&T>)
        requires
            old(self).wf(),
        ensures
            final(self).wf(),
            final(self).spec_capacity() == old(self).spec_capacity(),
            final(self).spec_trigger() == old(self).spec_trigger(),
            final(self).all_snapshots() == old(self).all_snapshots(),
            final(self).only_first_snapshot() == old(self).only_first_snapshot(),
            match old(self)@.redone(1) {
                Some(v) => final(self)@ == v && r == Some(&final(self)@.current()),
                None => final(self)@ == old(self)@ && r is None,
            },
    {
        self.0.redo_multi(1)
    }

    /// Redoes `count` changes; None, with nothing changed, when fewer can
    /// be redone. A count of 0 changes nothing.
    pub fn redo_multi(&mut self, count: usize) -> (r: Option<&T>)
        requires
            old(self).wf(),
        ensures
            final(self).wf(),
            final(self).spec_capacity() == old(self).spec_capacity(),
            final(self).spec_trigger() == old(self).spec_trigger(),
            final(self).all_snapshots() == old(self).all_snapshots(),
            final(self).only_first_snapshot() == old(self).only_first_snapshot(),
            match old(self)@.redone(count as int) {
                Some(v) => final(self)@ == v && r == Some(&final(self)@.current()),
                None => final(self)@ == old(self)@ && r is None,
            },
    {
        self.0.redo_multi(count)
    }

    /// Undoes `-count` changes when `count` is negative, redoes `count`
    /// changes otherwise; None, with nothing changed, when that many are
    /// not there.
    pub fn jump(&mut self, count: isize) -> (r: Option<&T>)
        requires
            old(self).wf(),
        ensures
            final(self).wf(),
            final(self).spec_capacity() == old(self).spec_capacity(),
            final(self).spec_trigger() == old(self).spec_trigger(),
            final(self).all_snapshots() == old(self).all_snapshots(),
            final(self).only_first_snapshot() == old(self).only_first_snapshot(),
            match old(self)@.jumped(count as int) {
                Some(v) => final(self)@ == v && r == Some(&final(self)@.current()),
                None => final(self)@ == old(self)@ && r is None,
            },
    {
        self.0.jump(count)
    }

    /// Applies `command` to the current state and records the change.
    ///
    /// The command may be run again to regenerate later versions, so it
    /// must give the same result each time it runs on the same state.
    pub fn edit(&mut self, command: F) -> (r: &T)
        requires
            old(self).wf(),
            pure_command(command),
        ensures
            final(self).wf(),
            final(self).spec_capacity() == old(self).spec_capacity(),
            final(self).spec_trigger() == old(self).spec_trigger(),
            command.ensures((old(self)@.current(),), *r),
            final(self)@ == old(self)@.edited(*r, old(self).spec_capacity()),
            trigger_decides(
                old(self).spec_trigger(),
                old(self).current_metrics(),
                final(self).current_is_snapshot(),
                final(self).current_metrics(),
            ),
            trigger_always(old(self).spec_trigger()) ==> final(self).current_is_snapshot(),
            trigger_never(old(self).spec_trigger()) ==> !final(self).current_is_snapshot(),
            trigger_always(old(self).spec_trigger()) && old(self).all_snapshots()
                ==> final(self).all_snapshots(),
            trigger_never(old(self).spec_trigger()) && old(self).only_first_snapshot()
                ==> final(self).only_first_snapshot(),
    {
        self.0.edit(command)
    }

    /// Applies `command` to the current state and records the change,
    /// unless the command declines with None: then the state stays as it
    /// was and None is returned.
    pub fn edit_if(&mut self, command: G) -> (r: Option<&T>)
        requires
            old(self).wf(),
            pure_conditional(command),
        ensures
            final(self).wf(),
            final(self).spec_capacity() == old(self).spec_capacity(),
            final(self).spec_trigger() == old(self).spec_trigger(),
            match r {
                Some(y) => {
                    &&& command.ensures((old(self)@.current(),), Some(*y))
                    &&& final(self)@ == old(self)@.edited(*y, old(self).spec_capacity())
                },
                None => {
                    &&& command.ensures((old(self)@.current(),), None::<T>)
                    &&& final(self)@ == old(self)@
                    &&& final(self).all_snapshots() == old(self).all_snapshots()
                    &&& final(self).only_first_snapshot() == old(self).only_first_snapshot()
                    &&& final(self).current_is_snapshot() == old(self).current_is_snapshot()
                    &&& final(self).current_metrics() == old(self).current_metrics()
                },
            },
            r is Some ==> trigger_decides(
                    old(self).spec_trigger(),
                    old(self).current_metrics(),
                    final(self).current_is_snapshot(),
                    final(self).current_metrics(),
                ),
            r is Some && trigger_always(old(self).spec_trigger()) ==> final(self).current_is_snapshot(),
            r is Some && trigger_never(old(self).spec_trigger()) ==> !final(self).current_is_snapshot(),
            trigger_always(old(self).spec_trigger()) && old(self).all_snapshots()
                ==> final(self).all_snapshots(),
            trigger_never(old(self).spec_trigger()) && old(self).only_first_snapshot()
                ==> final(self).only_first_snapshot(),
    {
        self.0.edit_if(command)
    }

    /// Applies a command that may fail or may not be run twice, such as
    /// one that reads a file. On success a snapshot of the new state is
    /// recorded; on failure the error is returned and the state stays as
    /// it was.
    pub fn try_edit<E, C: FnOnce(T) -> Result<T, E>>(&mut self, command: C) -> (r: Result<&T, E>)
        requires
            old(self).wf(),
            command.requires((old(self)@.current(),)),
        ensures
            final(self).wf(),
            final(self).spec_capacity() == old(self).spec_capacity(),
            final(self).spec_trigger() == old(self).spec_trigger(),
            match r {
                Ok(y) => {
                    &&& command.ensures((old(self)@.current(),), Ok::<T, E>(*y))
                    &&& final(self)@ == old(self)@.edited(*y, old(self).spec_capacity())
                },
                Err(e) => {
                    &&& command.ensures((old(self)@.current(),), Err::<T, E>(e))
                    &&& final(self)@ == old(self)@
                    &&& final(self).only_first_snapshot() == old(self).only_first_snapshot()
                },
            },
            r is Ok ==> final(self).current_is_snapshot() && final(self).current_metrics().is_zero(),
            old(self).all_snapshots() ==> final(self).all_snapshots(),
    {
        self.0.try_edit(command)
    }

    /// A consistent object's cursor points at one of its versions.
    pub proof fn lemma_cursor_in_range(&self)
        requires
            self.wf(),
        ensures
            self@.wf(),
    {
    }

    /// The versions in reach never outnumber a nonzero capacity, and the
    /// oldest entry kept is a snapshot.
    pub proof fn lemma_bounded(&self)
        requires
            self.wf(),
        ensures
            self.spec_capacity() > 0 ==> self@.undoable() + self@.redoable() + 1
                <= self.spec_capacity(),
            self.oldest_is_snapshot(),
    {
    }
}

impl<T: Snapshot, F: Fn(T) -> T + Send + Sync, G: Fn(T) -> Option<T> + Send + Sync, P: Fn(&Metrics) -> bool + Send + Sync> IUndoRedo for Aur<
    T,
    F,
    G,
    P,
> {
    type State = T;

    open spec fn chronicle(&self) -> Chronicle<T> {
        self@
    }

    open spec fn consistent(&self) -> bool {
        self.wf()
    }

    open spec fn capacity_limit(&self) -> nat {
        self.spec_capacity()
    }

    fn into_inner(self) -> (r: T) {
        Aur::into_inner(self)
    }

    fn capacity(&self) -> (r: Option<usize>) {
        Aur::capacity(self)
    }

    fn undoable_count(&self) -> (r: usize) {
        Aur::undoable_count(self)
    }

    fn redoable_count(&self) -> (r: usize) {
        Aur::redoable_count(self)
    }

    fn undo_multi(&mut self, count: usize) -> (r: Option<&T>) {
        Aur::undo_multi(self, count)
    }

    fn redo_multi(&mut self, count: usize) -> (r: Option<&T>) {
        Aur::redo_multi(self, count)
    }

    fn try_edit<E, C: FnOnce(T) -> Result<T, E>>(&mut self, command: C) -> (r: Result<&T, E>) {
        Aur::try_edit(self, command)
    }
}

impl<T: Snapshot, F: Fn(T) -> T + Send + Sync, G: Fn(T) -> Option<T> + Send + Sync, P: Fn(&Metrics) -> bool + Send + Sync> IEditA for Aur<
    T,
    F,
    G,
    P,
> {
    type Command = F;

    type Conditional = G;

    fn edit(&mut self, command: F) -> (r: &T) {
        Aur::edit(self, command)
    }

    fn edit_if(&mut self, command: G) -> (r: Option<&T>) {
        Aur::edit_if(self, command)
    }
}

} // verus!
