//! The model that the contracts of the undo-redo types speak of, and the
//! conditions they ask of commands and triggers.
use crate::metrics::Metrics;
use vstd::prelude::*;

verus! {

/// What an undo-redo object holds, seen from outside: the versions of the
/// state that are in reach, oldest first, and the index of the current one.
pub struct Chronicle<T> {
    pub versions: Seq<T>,
    pub cursor: int,
}

impl<T> Chronicle<T> {
    /// The cursor points at a version.
    pub open spec fn wf(self) -> bool {
        0 <= self.cursor < self.versions.len()
    }

    /// The current version.
    pub open spec fn current(self) -> T {
        self.versions[self.cursor]
    }

    /// How many versions lie before the current one.
    pub open spec fn undoable(self) -> int {
        self.cursor
    }

    /// How many versions lie after the current one.
    pub open spec fn redoable(self) -> int {
        self.versions.len() - 1 - self.cursor
    }

    /// The chronicle after undoing `count` changes; None when fewer lie behind.
    pub open spec fn undone(self, count: int) -> Option<Chronicle<T>> {
        if 0 <= count <= self.undoable() {
            Some(Chronicle { versions: self.versions, cursor: self.cursor - count })
        } else {
            None
        }
    }

    /// The chronicle after redoing `count` changes; None when fewer lie ahead.
    pub open spec fn redone(self, count: int) -> Option<Chronicle<T>> {
        if 0 <= count <= self.redoable() {
            Some(Chronicle { versions: self.versions, cursor: self.cursor + count })
        } else {
            None
        }
    }

    /// Undo for a negative `count`, redo otherwise.
    pub open spec fn jumped(self, count: int) -> Option<Chronicle<T>> {
        if count < 0 {
            self.undone(-count)
        } else {
            self.redone(count)
        }
    }

    /// The chronicle after a change to `next`: the versions after the
    /// current one are discarded, `next` is appended and becomes current,
    /// and with a nonzero `capacity` the oldest version leaves when more
    /// than `capacity` would be in reach.
    pub open spec fn edited(self, next: T, capacity: nat) -> Chronicle<T> {
        let grown = self.versions.take(self.cursor + 1).push(next);
        if capacity > 0 && grown.len() > capacity {
            Chronicle { versions: grown.skip(1), cursor: grown.len() - 2 }
        } else {
            Chronicle { versions: grown, cursor: grown.len() - 1 }
        }
    }

    /// The chronicle after a change to each of `nexts`, in order.
    pub open spec fn edited_all(self, nexts: Seq<T>, capacity: nat) -> Chronicle<T>
        decreases nexts.len(),
    {
        if nexts.len() == 0 {
            self
        } else {
            self.edited_all(nexts.drop_last(), capacity).edited(nexts.last(), capacity)
        }
    }
}

/// How many of `len` versions leave when at most `capacity` stay.
pub open spec fn overflow(len: int, capacity: nat) -> int {
    if len > capacity {
        len - capacity
    } else {
        0
    }
}

/// A command can be replayed: it accepts every state, and gives the same
/// result each time it is run on the same state.
pub open spec fn pure_command<T, F: Fn(T) -> T>(f: F) -> bool {
    &&& forall|x: T| #[trigger] f.requires((x,))
    &&& forall|x: T, y: T, z: T| #[trigger] f.ensures((x,), y) && #[trigger] f.ensures((x,), z) ==> y == z
}

/// A command that may decline can be replayed: it accepts every state,
/// and gives the same result each time it is run on the same state.
pub open spec fn pure_conditional<T, G: Fn(T) -> Option<T>>(g: G) -> bool {
    &&& forall|x: T| #[trigger] g.requires((x,))
    &&& forall|x: T, y: Option<T>, z: Option<T>|
        #[trigger] g.ensures((x,), y) && #[trigger] g.ensures((x,), z) ==> y == z
}

/// A snapshot trigger can be called on any metrics.
pub open spec fn total_trigger<P: Fn(&Metrics) -> bool>(p: P) -> bool {
    forall|m: Metrics| #[trigger] p.requires((&m,))
}

/// A snapshot trigger that only ever answers true.
pub open spec fn always_snapshots<P: Fn(&Metrics) -> bool>(p: P) -> bool {
    forall|m: Metrics, b: bool| #[trigger] p.ensures((&m,), b) ==> b
}

/// A snapshot trigger that only ever answers false.
pub open spec fn never_snapshots<P: Fn(&Metrics) -> bool>(p: P) -> bool {
    forall|m: Metrics, b: bool| #[trigger] p.ensures((&m,), b) ==> !b
}

/// An edit after an entry with the metrics `prev` stored its new entry as
/// `trigger` decided. With a trigger, it was called on metrics that follow
/// `prev`, and the new entry is a snapshot with zero metrics exactly when it
/// answered true, else a command with those metrics. Without a trigger, the
/// new entry is a command with metrics that follow `prev`.
pub open spec fn trigger_decides<P: Fn(&Metrics) -> bool>(
    trigger: Option<P>,
    prev: Metrics,
    stored_snapshot: bool,
    stored: Metrics,
) -> bool {
    match trigger {
        Some(p) => exists|m: Metrics, b: bool|
            {
                &&& #[trigger] p.ensures((&m,), b)
                &&& m.follows(prev)
                &&& stored_snapshot == b
                &&& if b {
                    stored.is_zero()
                } else {
                    stored == m
                }
            },
        None => !stored_snapshot && stored.follows(prev),
    }
}

/// With this trigger, every edit stores a snapshot.
pub open spec fn trigger_always<P: Fn(&Metrics) -> bool>(p: Option<P>) -> bool {
    p matches Some(f) && always_snapshots(f)
}

/// With this trigger, no edit stores a snapshot; without a trigger, none
/// is ever taken.
pub open spec fn trigger_never<P: Fn(&Metrics) -> bool>(p: Option<P>) -> bool {
    p matches Some(f) ==> never_snapshots(f)
}

/// Undoing `count` changes and then redoing `count` changes gives back
/// the chronicle, and so the state, that was current before the undo.
pub proof fn lemma_undo_redo_round_trip<T>(c: Chronicle<T>, count: int)
    requires
        c.wf(),
        0 <= count <= c.undoable(),
    ensures
        c.undone(count) is Some,
        c.undone(count)->0.redone(count) == Some(c),
{
}

/// Undoing or redoing zero changes changes nothing.
pub proof fn lemma_zero_count_changes_nothing<T>(c: Chronicle<T>)
    requires
        c.wf(),
    ensures
        c.undone(0) == Some(c),
        c.redone(0) == Some(c),
        c.jumped(0) == Some(c),
{
}

/// An edit discards every version after the current one: nothing is left
/// to redo, and the new state is current.
pub proof fn lemma_edit_discards_redo<T>(c: Chronicle<T>, next: T, capacity: nat)
    requires
        c.wf(),
    ensures
        c.edited(next, capacity).wf(),
        c.edited(next, capacity).redoable() == 0,
        c.edited(next, capacity).current() == next,
{
}

/// With a nonzero capacity, an edit keeps the versions in reach within
/// the capacity.
pub proof fn lemma_edit_within_capacity<T>(c: Chronicle<T>, next: T, capacity: nat)
    requires
        c.wf(),
        capacity > 0,
        c.versions.len() <= capacity,
    ensures
        c.edited(next, capacity).versions.len() <= capacity,
        c.edited(next, capacity).undoable() + c.edited(next, capacity).redoable() + 1 <= capacity,
{
}

/// After one or more changes under a nonzero capacity, the versions in
/// reach are the newest of those up to the current one and the new ones,
/// at most `capacity` of them, and the newest is current.
pub proof fn lemma_edits_keep_newest<T>(c: Chronicle<T>, nexts: Seq<T>, capacity: nat)
    requires
        c.wf(),
        capacity > 0,
        c.versions.len() <= capacity,
        nexts.len() >= 1,
    ensures
        ({
            let all = c.versions.take(c.cursor + 1) + nexts;
            let r = c.edited_all(nexts, capacity);
            &&& r.versions == all.skip(overflow(all.len() as int, capacity))
            &&& r.cursor == r.versions.len() - 1
        }),
    decreases nexts.len(),
{
    let base = c.versions.take(c.cursor + 1);
    let x = nexts.last();
    let rest = nexts.drop_last();
    let all = base + nexts;
    let all0 = base + rest;
    assert(all =~= all0.push(x));
    if nexts.len() == 1 {
        assert(rest =~= Seq::<T>::empty());
        assert(all0 =~= base);
        assert(c.edited_all(rest, capacity) == c);
        let grown = base.push(x);
        if grown.len() > capacity {
            assert(grown.skip(1) =~= all.skip(overflow(all.len() as int, capacity)));
        } else {
            assert(grown =~= all.skip(0));
        }
    } else {
        lemma_edits_keep_newest(c, rest, capacity);
        let e = c.edited_all(rest, capacity);
        let d0 = overflow(all0.len() as int, capacity);
        assert(e.versions.take(e.cursor + 1) =~= e.versions);
        let grown = e.versions.push(x);
        assert(grown =~= all.skip(d0));
        if grown.len() > capacity {
            assert(grown.skip(1) =~= all.skip(d0 + 1));
        }
    }
}

/// After at least `capacity` changes under a nonzero capacity, exactly the
/// newest `capacity` results are in reach, and the oldest of them is
/// `capacity - 1` undos away.
pub proof fn lemma_many_edits_within_capacity<T>(c: Chronicle<T>, nexts: Seq<T>, capacity: nat)
    requires
        c.wf(),
        capacity > 0,
        c.versions.len() <= capacity,
        nexts.len() >= capacity,
    ensures
        c.edited_all(nexts, capacity).versions == nexts.skip(nexts.len() - capacity),
        c.edited_all(nexts, capacity).undoable() == capacity - 1,
        c.edited_all(nexts, capacity).redoable() == 0,
        c.edited_all(nexts, capacity).undone(capacity - 1)->0.current() == nexts[nexts.len()
            - capacity],
{
    lemma_edits_keep_newest(c, nexts, capacity);
    let base = c.versions.take(c.cursor + 1);
    let all = base + nexts;
    assert(all.skip(all.len() - capacity) =~= nexts.skip(nexts.len() - capacity));
}

/// Undo and redo, as offered by every undo-redo type of this crate.
pub trait IUndoRedo: Sized {
    type State;

    /// The versions in reach and the cursor.
    spec fn chronicle(&self) -> Chronicle<Self::State>;

    /// The object is consistent: it holds the current version, and its
    /// history regenerates every version in reach.
    spec fn consistent(&self) -> bool;

    /// The maximum number of versions in reach; 0 means no limit.
    spec fn capacity_limit(&self) -> nat;

    /// Consumes the object and returns its current state.
    fn into_inner(self) -> (r: Self::State)
        requires
            self.consistent(),
        ensures
            r == self.chronicle().current(),
    ;

    /// The capacity; None when there is no limit.
    fn capacity(&self) -> (r: Option<usize>)
        ensures
            r == (if self.capacity_limit() > 0 {
                Some(self.capacity_limit() as usize)
            } else {
                None
            }),
    ;

    /// How many changes can be undone.
    fn undoable_count(&self) -> (r: usize)
        requires
            self.consistent(),
        ensures
            r == self.chronicle().undoable(),
    ;

    /// How many changes can be redone.
    fn redoable_count(&self) -> (r: usize)
        requires
            self.consistent(),
        ensures
            r == self.chronicle().redoable(),
    ;

    /// Undoes the last change; None, with nothing changed, when there is
    /// none to undo.
    fn undo(&mut self) -> (r: Option<&Self::State>)
        requires
            old(self).consistent(),
        ensures
            final(self).consistent(),
            final(self).capacity_limit() == old(self).capacity_limit(),
            match old(self).chronicle().undone(1) {
                Some(v) => final(self).chronicle() == v && r == Some(&final(self).chronicle().current()),
                None => final(self).chronicle() == old(self).chronicle() && r is None,
            },
    {
        self.undo_multi(1)
    }

    /// Undoes `count` changes; None, with nothing changed, when fewer can
    /// be undone.
    fn undo_multi(&mut self, count: usize) -> (r: Option<&Self::State>)
        requires
            old(self).consistent(),
        ensures
            final(self).consistent(),
            final(self).capacity_limit() == old(self).capacity_limit(),
            match old(self).chronicle().undone(count as int) {
                Some(v) => final(self).chronicle() == v && r == Some(&final(self).chronicle().current()),
                None => final(self).chronicle() == old(self).chronicle() && r is None,
            },
    ;

    /// Redoes the last undone change; None, with nothing changed, when
    /// there is none to redo.
    fn redo(&mut self) -> (r: Option<&Self::State>)
        requires
            old(self).consistent(),
        ensures
            final(self).consistent(),
            final(self).capacity_limit() == old(self).capacity_limit(),
            match old(self).chronicle().redone(1) {
                Some(v) => final(self).chronicle() == v && r == Some(&final(self).chronicle().current()),
                None => final(self).chronicle() == old(self).chronicle() && r is None,
            },
    {
        self.redo_multi(1)
    }

    /// Redoes `count` changes; None, with nothing changed, when fewer can
    /// be redone.
    fn redo_multi(&mut self, count: usize) -> (r: Option<&Self::State>)
        requires
            old(self).consistent(),
        ensures
            final(self).consistent(),
            final(self).capacity_limit() == old(self).capacity_limit(),
            match old(self).chronicle().redone(count as int) {
                Some(v) => final(self).chronicle() == v && r == Some(&final(self).chronicle().current()),
                None => final(self).chronicle() == old(self).chronicle() && r is None,
            },
    ;

    /// Undoes `-count` changes when `count` is negative, redoes `count`
    /// changes otherwise; None, with nothing changed, when that many are
    /// not there.
    fn jump(&mut self, count: isize) -> (r: Option<&Self::State>)
        requires
            old(self).consistent(),
        ensures
            final(self).consistent(),
            final(self).capacity_limit() == old(self).capacity_limit(),
            match old(self).chronicle().jumped(count as int) {
                Some(v) => final(self).chronicle() == v && r == Some(&final(self).chronicle().current()),
                None => final(self).chronicle() == old(self).chronicle() && r is None,
            },
    {
        if count < 0 {
            self.undo_multi(((-(count + 1)) as usize) + 1)
        } else {
            self.redo_multi(count as usize)
        }
    }

    /// Applies a command that may fail or may not be run twice; on success
    /// a snapshot of the new state is recorded, on failure the state stays
    /// as it was.
    fn try_edit<E, C: FnOnce(Self::State) -> Result<Self::State, E>>(&mut self, command: C) -> (r:
        Result<&Self::State, E>)
        requires
            old(self).consistent(),
            command.requires((old(self).chronicle().current(),)),
        ensures
            final(self).consistent(),
            final(self).capacity_limit() == old(self).capacity_limit(),
            match r {
                Ok(y) => {
                    &&& command.ensures((old(self).chronicle().current(),), Ok::<Self::State, E>(*y))
                    &&& final(self).chronicle() == old(self).chronicle().edited(
                        *y,
                        old(self).capacity_limit(),
                    )
                },
                Err(e) => {
                    &&& command.ensures((old(self).chronicle().current(),), Err::<Self::State, E>(e))
                    &&& final(self).chronicle() == old(self).chronicle()
                },
            },
    ;
}

/// Edits by commands that are kept and replayed to regenerate versions.
pub trait IEdit: IUndoRedo {
    /// The type of the commands given to `edit`.
    type Command: Fn(Self::State) -> Self::State;

    /// The type of the commands given to `edit_if`.
    type Conditional: Fn(Self::State) -> Option<Self::State>;

    /// Applies `command` to the current state and records the change.
    fn edit(&mut self, command: Self::Command) -> (r: &Self::State)
        requires
            old(self).consistent(),
            pure_command(command),
        ensures
            final(self).consistent(),
            final(self).capacity_limit() == old(self).capacity_limit(),
            command.ensures((old(self).chronicle().current(),), *r),
            final(self).chronicle() == old(self).chronicle().edited(*r, old(self).capacity_limit()),
    ;

    /// Applies `command` to the current state and records the change,
    /// unless the command declines with None: then nothing changes.
    fn edit_if(&mut self, command: Self::Conditional) -> (r: Option<&Self::State>)
        requires
            old(self).consistent(),
            pure_conditional(command),
        ensures
            final(self).consistent(),
            final(self).capacity_limit() == old(self).capacity_limit(),
            match r {
                Some(y) => {
                    &&& command.ensures((old(self).chronicle().current(),), Some(*y))
                    &&& final(self).chronicle() == old(self).chronicle().edited(
                        *y,
                        old(self).capacity_limit(),
                    )
                },
                None => {
                    &&& command.ensures((old(self).chronicle().current(),), None::<Self::State>)
                    &&& final(self).chronicle() == old(self).chronicle()
                },
            },
    ;
}

/// Edits by commands that are kept and replayed to regenerate versions,
/// and that may be shared between threads.
pub trait IEditA: IUndoRedo {
    /// The type of the commands given to `edit`.
    type Command: Fn(Self::State) -> Self::State + Send + Sync;

    /// The type of the commands given to `edit_if`.
    type Conditional: Fn(Self::State) -> Option<Self::State> + Send + Sync;

    /// Applies `command` to the current state and records the change.
    fn edit(&mut self, command: Self::Command) -> (r: &Self::State)
        requires
            old(self).consistent(),
            pure_command(command),
        ensures
            final(self).consistent(),
            final(self).capacity_limit() == old(self).capacity_limit(),
            command.ensures((old(self).chronicle().current(),), *r),
            final(self).chronicle() == old(self).chronicle().edited(*r, old(self).capacity_limit()),
    ;

    /// Applies `command` to the current state and records the change,
    /// unless the command declines with None: then nothing changes.
    fn edit_if(&mut self, command: Self::Conditional) -> (r: Option<&Self::State>)
        requires
            old(self).consistent(),
            pure_conditional(command),
        ensures
            final(self).consistent(),
            final(self).capacity_limit() == old(self).capacity_limit(),
            match r {
                Some(y) => {
                    &&& command.ensures((old(self).chronicle().current(),), Some(*y))
                    &&& final(self).chronicle() == old(self).chronicle().edited(
                        *y,
                        old(self).capacity_limit(),
                    )
                },
                None => {
                    &&& command.ensures((old(self).chronicle().current(),), None::<Self::State>)
                    &&& final(self).chronicle() == old(self).chronicle()
                },
            },
    ;
}

/// Builders of the undo-redo types.
pub trait IBuilder: Sized {
    type State;
    type Target: IUndoRedo<State = Self::State>;

    /// The capacity set so far; 0 means no limit.
    spec fn capacity_setting(&self) -> usize;

    /// The settings can be built on.
    spec fn ready(&self) -> bool;

    /// Sets the maximum number of versions kept in reach of undo; 0 means
    /// no limit.
    fn capacity(self, capacity: usize) -> (r: Self)
        ensures
            r.capacity_setting() == capacity,
            r.ready() == self.ready(),
    ;

    /// Creates an undo-redo object whose only version is `initial_state`.
    fn build(self, initial_state: Self::State) -> (r: Self::Target)
        requires
            self.ready(),
        ensures
            r.consistent(),
            r.chronicle() == (Chronicle { versions: seq![initial_state], cursor: 0 }),
            r.capacity_limit() == self.capacity_setting(),
    ;
}

/// Builders that take a snapshot trigger.
pub trait ITrigger<P: Fn(&Metrics) -> bool>: Sized {
    /// The trigger set so far; None when there is none.
    spec fn trigger_setting(&self) -> Option<P>;

    /// Sets the closure that decides, on each edit, whether a snapshot of
    /// the new state is stored in place of the command.
    fn snapshot_trigger(self, f: P) -> (r: Self)
        ensures
            r.trigger_setting() == Some(f),
    ;
}

/// Builders that take a snapshot trigger that may be shared between
/// threads.
pub trait ITriggerA<P: Fn(&Metrics) -> bool + Send + Sync>: Sized {
    /// The trigger set so far; None when there is none.
    spec fn trigger_setting(&self) -> Option<P>;

    /// Sets the closure that decides, on each edit, whether a snapshot of
    /// the new state is stored in place of the command.
    fn snapshot_trigger(self, f: P) -> (r: Self)
        ensures
            r.trigger_setting() == Some(f),
    ;
}

} // verus!
