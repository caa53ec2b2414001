//! The versioning engine: owns the current state, drives the history, and
//! regenerates past and future versions.
use crate::history::{anchor, anchored, Generator, History, Node};
use crate::interface::{
    pure_command, pure_conditional, total_trigger, trigger_always, trigger_decides, trigger_never,
    Chronicle,
};
use crate::metrics::Metrics;
use crate::snapshot::SnapshotHandler;
use std::marker::PhantomData;
use std::time::Instant;
use vstd::prelude::*;

verus! {

/// A command as stored in the history.
pub(crate) enum Step<F, G> {
    /// A command from `edit`.
    Apply(F),
    /// A command from `edit_if` that did not decline.
    Filter(G),
}

/// Running `step` on `x` is possible and gives `y`, whatever run it is.
pub(crate) open spec fn yields<T, F: Fn(T) -> T, G: Fn(T) -> Option<T>>(
    step: Step<F, G>,
    x: T,
    y: T,
) -> bool {
    match step {
        Step::Apply(f) => f.requires((x,)) && forall|r: T| f.ensures((x,), r) ==> r == y,
        Step::Filter(g) => g.requires((x,)) && forall|r: Option<T>| g.ensures((x,), r) ==> r
            == Some(y),
    }
}

/// Entry `i` of `history` regenerates `versions[i]`: a snapshot restores
/// it, a command makes it from `versions[i - 1]`.
pub(crate) open spec fn regenerates<T, H: SnapshotHandler<State = T>, F: Fn(T) -> T, G: Fn(T) -> Option<T>>(
    nodes: Seq<Node<Step<F, G>, H::Snapshot>>,
    versions: Seq<T>,
    i: int,
) -> bool {
    match nodes[i].generator {
        Generator::Snapshot(s) => H::restores(s, versions[i]),
        Generator::Command(c) => i >= 1 && yields(c, versions[i - 1], versions[i]),
    }
}

/// `history` is well formed and regenerates each of `versions`.
pub(crate) open spec fn log_ok<T, H: SnapshotHandler<State = T>, F: Fn(T) -> T, G: Fn(T) -> Option<T>>(
    history: History<Step<F, G>, H::Snapshot>,
    versions: Seq<T>,
) -> bool {
    &&& history.wf()
    &&& H::faithful()
    &&& versions.len() == history.inner@.len()
    &&& forall|i: int| 0 <= i < versions.len() ==> #[trigger] regenerates::<T, H, F, G>(history.inner@, versions, i)
}

/// A trigger, if there is one, can be called on any metrics.
pub(crate) open spec fn trigger_ok<P: Fn(&Metrics) -> bool>(p: Option<P>) -> bool {
    p matches Some(f) ==> total_trigger(f)
}

/// Settings of an engine that is yet to be built.
pub(crate) struct GurBuilder<P> {
    pub(crate) capacity: usize,
    pub(crate) snapshot_trigger: Option<P>,
}

impl<P: Fn(&Metrics) -> bool> GurBuilder<P> {
    pub(crate) fn new() -> (r: Self)
        ensures
            r.capacity == 0,
            r.snapshot_trigger is None,
    {
        GurBuilder { capacity: 0, snapshot_trigger: None }
    }

    pub(crate) fn capacity(self, capacity: usize) -> (r: Self)
        ensures
            r.capacity == capacity,
            r.snapshot_trigger == self.snapshot_trigger,
    {
        GurBuilder { capacity, snapshot_trigger: self.snapshot_trigger }
    }

    pub(crate) fn snapshot_trigger(self, f: P) -> (r: Self)
        ensures
            r.capacity == self.capacity,
            r.snapshot_trigger == Some(f),
    {
        GurBuilder { capacity: self.capacity, snapshot_trigger: Some(f) }
    }

    pub(crate) fn build<T, H, F, G>(self, initial_state: T) -> (r: Gur<T, H, F, G, P>) where
        H: SnapshotHandler<State = T>,
        F: Fn(T) -> T,
        G: Fn(T) -> Option<T>,

        requires
            H::faithful(),
            trigger_ok(self.snapshot_trigger),
        ensures
            r.wf(),
            r.view() == (Chronicle { versions: seq![initial_state], cursor: 0 }),
            r.spec_capacity() == self.capacity,
            r.snapshot_trigger == self.snapshot_trigger,
            r.current_metrics().is_zero(),
            r.all_snapshots(),
            r.only_first_snapshot(),
    {
        Gur::new(initial_state, self.capacity, self.snapshot_trigger)
    }
}

/// The engine. `versions` holds, for each entry of the history, the state
/// that entry stands for.
#[verifier::reject_recursive_types(T)]
pub(crate) struct Gur<T, H: SnapshotHandler<State = T>, F, G, P> {
    pub(crate) state: Option<T>,
    pub(crate) history: History<Step<F, G>, H::Snapshot>,
    pub(crate) snapshot_trigger: Option<P>,
    pub(crate) versions: Ghost<Seq<T>>,
    pub(crate) handler: PhantomData<H>,
}

impl<T, H, F, G, P> Gur<T, H, F, G, P> where
    H: SnapshotHandler<State = T>,
    F: Fn(T) -> T,
    G: Fn(T) -> Option<T>,
    P: Fn(&Metrics) -> bool,
 {
    /// Everything but the current state is well formed.
    pub(crate) open spec fn wf_log(&self) -> bool {
        &&& log_ok::<T, H, F, G>(self.history, self.versions@)
        &&& trigger_ok(self.snapshot_trigger)
    }

    pub(crate) open spec fn wf(&self) -> bool {
        &&& self.wf_log()
        &&& self.state == Some(self.versions@[self.history.current as int])
    }

    pub(crate) open spec fn view(&self) -> Chronicle<T> {
        Chronicle {
            versions: self.versions@.skip(self.history.logical_first as int),
            cursor: self.history.current - self.history.logical_first,
        }
    }

    pub(crate) open spec fn spec_capacity(&self) -> nat {
        self.history.capacity as nat
    }

    /// The metrics of the entry of the current version.
    pub(crate) open spec fn current_metrics(&self) -> Metrics {
        self.history.inner@[self.history.current as int].metrics
    }

    /// The entry of the current version is a snapshot.
    pub(crate) open spec fn current_is_snapshot(&self) -> bool {
        self.history.inner@[self.history.current as int].generator is Snapshot
    }

    /// Every entry of the history is a snapshot.
    pub(crate) open spec fn all_snapshots(&self) -> bool {
        forall|i: int| 0 <= i < self.history.inner@.len() ==> (#[trigger] self.history.inner@[i]).generator is Snapshot
    }

    /// Every entry of the history but the first is a command.
    pub(crate) open spec fn only_first_snapshot(&self) -> bool {
        forall|i: int| 0 < i < self.history.inner@.len() ==> (#[trigger] self.history.inner@[i]).generator is Command
    }

    /// What edits and undos leave alone.
    pub(crate) open spec fn same_setup(&self, other: &Self) -> bool {
        &&& self.history.capacity == other.history.capacity
        &&& self.snapshot_trigger == other.snapshot_trigger
    }

    pub(crate) fn get(&self) -> (r: &T)
        requires
            self.wf(),
        ensures
            *r == self.view().current(),
    {
        self.state.as_ref().unwrap()
    }

    fn take(&mut self) -> (r: T)
        requires
            old(self).wf(),
        ensures
            r == old(self).versions@[old(self).history.current as int],
            final(self).state is None,
            final(self).history == old(self).history,
            final(self).versions == old(self).versions,
            final(self).snapshot_trigger == old(self).snapshot_trigger,
    {
        self.state.take().unwrap()
    }

    pub(crate) fn new(initial_state: T, capacity: usize, snapshot_trigger: Option<P>) -> (r: Self)
        requires
            H::faithful(),
            trigger_ok(snapshot_trigger),
        ensures
            r.wf(),
            r.view() == (Chronicle { versions: seq![initial_state], cursor: 0 }),
            r.spec_capacity() == capacity,
            r.snapshot_trigger == snapshot_trigger,
            r.current_metrics().is_zero(),
            r.all_snapshots(),
            r.only_first_snapshot(),
    {
        let ghost versions = seq![initial_state];
        let first_node = Node::from_snapshot(H::to_snapshot(&initial_state));
        let history = if capacity == 0 {
            History::new_unlimited(first_node)
        } else {
            History::new(first_node, capacity)
        };
        let r = Gur {
            state: Some(initial_state),
            history,
            snapshot_trigger,
            versions: Ghost(versions),
            handler: PhantomData,
        };
        assert(regenerates::<T, H, F, G>(r.history.inner@, r.versions@, 0));
        assert(r.view().versions =~= seq![initial_state]);
        r
    }

    pub(crate) fn current_index(&self) -> (r: usize)
        requires
            self.wf(),
        ensures
            r == self.view().cursor,
    {
        self.history.current_index()
    }

    /// Runs the command of entry `k` on version `k - 1`.
    fn replay(&self, k: usize, x: T) -> (r: T)
        requires
            self.wf_log(),
            1 <= k < self.history.inner@.len(),
            self.history.inner@[k as int].generator is Command,
            x == self.versions@[k - 1],
        ensures
            r == self.versions@[k as int],
    {
        assert(regenerates::<T, H, F, G>(self.history.inner@, self.versions@, k as int));
        let c = self.history.node(k).generator().command().unwrap();
        match c {
            Step::Apply(f) => f(x),
            Step::Filter(g) => g(x).unwrap(),
        }
    }

    /// Regenerates version `target` (a physical index) from the snapshot
    /// it is anchored to, without the current state.
    fn regenerate(&self, target: usize) -> (r: T)
        requires
            self.wf_log(),
            target < self.history.inner@.len(),
        ensures
            r == self.versions@[target as int],
    {
        let first = self.history.find_last_snapshot_index_inner(target);
        proof {
            assert(anchored(self.history.inner@, target as int));
            assert(regenerates::<T, H, F, G>(self.history.inner@, self.versions@, first as int));
        }
        let snapshot = self.history.node(first).generator().snapshot().unwrap();
        let mut state = H::from_snapshot(snapshot);
        let n = self.history.inner.len();
        let mut k = first + 1;
        while k <= target
            invariant
                self.wf_log(),
                n == self.history.inner@.len(),
                target < self.history.inner@.len(),
                first == anchor(self.history.inner@, target as int),
                anchored(self.history.inner@, target as int),
                first < k <= target + 1,
                state == self.versions@[k - 1],
            decreases target + 1 - k,
        {
            assert(self.history.inner@[k as int].generator is Command);
            state = self.replay(k, state);
            k = k + 1;
        }
        state
    }

    fn undo_impl(&mut self, count: usize)
        requires
            old(self).wf(),
            0 < count <= old(self).view().undoable(),
        ensures
            final(self).wf(),
            final(self).view() == old(self).view().undone(count as int)->0,
            final(self).history.inner == old(self).history.inner,
            final(self).same_setup(&old(self)),
    {
        let target = self.current_index() - count;
        let _ = self.take();
        let target_inner = self.history.logical_first + target;
        let state = self.regenerate(target_inner);
        self.state = Some(state);
        self.history.set_current(target);
    }

    fn redo_impl(&mut self, count: usize)
        requires
            old(self).wf(),
            0 < count <= old(self).view().redoable(),
        ensures
            final(self).wf(),
            final(self).view() == old(self).view().redone(count as int)->0,
            final(self).history.inner == old(self).history.inner,
            final(self).same_setup(&old(self)),
    {
        let n = self.history.inner.len();
        let current = self.history.current;
        let current_idx = self.current_index();
        let target_idx = current_idx + count;
        let target = current + count;
        let ghost first = anchor(self.history.inner@, target as int);
        // The held state can be reused when it lies between the snapshot
        // that the target regenerates from and the target; that snapshot
        // may lie before the first entry in reach.
        let reuse = match self.history.find_last_snapshot_index(target_idx) {
            Some(last_snapshot_idx) => last_snapshot_idx <= current_idx,
            None => true,
        };
        let state = if !reuse {
            let _ = self.take();
            self.regenerate(target)
        } else {
            // Replay forward from the held state.
            let mut state = self.take();
            let mut k = current + 1;
            proof {
                assert(anchored(self.history.inner@, target as int));
            }
            while k <= target
                invariant
                    self.wf_log(),
                    n == self.history.inner@.len(),
                    target < self.history.inner@.len(),
                    first == anchor(self.history.inner@, target as int),
                    anchored(self.history.inner@, target as int),
                    first <= current < k <= target + 1,
                    state == self.versions@[k - 1],
                decreases target + 1 - k,
            {
                assert(self.history.inner@[k as int].generator is Command);
                state = self.replay(k, state);
                k = k + 1;
            }
            state
        };
        self.state = Some(state);
        self.history.set_current(target_idx);
    }

    /// Regenerates the current version, without the current state.
    fn reset_state(&mut self)
        requires
            old(self).wf_log(),
        ensures
            final(self).wf(),
            final(self).history == old(self).history,
            final(self).versions == old(self).versions,
            final(self).snapshot_trigger == old(self).snapshot_trigger,
    {
        self.state = None;
        let state = self.regenerate(self.history.current);
        self.state = Some(state);
    }

    pub(crate) fn into_inner(self) -> (r: T)
        requires
            self.wf(),
        ensures
            r == self.view().current(),
    {
        self.state.unwrap()
    }

    pub(crate) fn capacity(&self) -> (r: Option<usize>)
        ensures
            r == (if self.spec_capacity() > 0 {
                Some(self.spec_capacity() as usize)
            } else {
                None
            }),
    {
        let cap = self.history.capacity();
        if 0 < cap {
            Some(cap)
        } else {
            None
        }
    }

    pub(crate) fn undoable_count(&self) -> (r: usize)
        requires
            self.wf(),
        ensures
            r == self.view().undoable(),
    {
        self.history.len_before_current()
    }

    pub(crate) fn redoable_count(&self) -> (r: usize)
        requires
            self.wf(),
        ensures
            r == self.view().redoable(),
    {
        self.history.len_after_current()
    }

    pub(crate) fn undo_multi(&mut self, count: usize) -> (r: Option<&T>)
        requires
            old(self).wf(),
        ensures
            final(self).wf(),
            final(self).same_setup(&old(self)),
            final(self).history.inner == old(self).history.inner,
            match old(self).view().undone(count as int) {
                Some(v) => final(self).view() == v && r == Some(&final(self).view().current()),
                None => final(self).view() == old(self).view() && r is None,
            },
    {
        if 0 == count {
            return Some(self.get());
        }
        if self.undoable_count() < count {
            return None;
        }
        self.undo_impl(count);
        Some(self.get())
    }

    pub(crate) fn redo_multi(&mut self, count: usize) -> (r: Option<&T>)
        requires
            old(self).wf(),
        ensures
            final(self).wf(),
            final(self).same_setup(&old(self)),
            final(self).history.inner == old(self).history.inner,
            match old(self).view().redone(count as int) {
                Some(v) => final(self).view() == v && r == Some(&final(self).view().current()),
                None => final(self).view() == old(self).view() && r is None,
            },
    {
        if 0 == count {
            return Some(self.get());
        }
        if self.redoable_count() < count {
            return None;
        }
        self.redo_impl(count);
        Some(self.get())
    }

    /// Appends `node`, which regenerates `new_state` from the current
    /// version, and makes `new_state` current.
    fn install(&mut self, node: Node<Step<F, G>, H::Snapshot>, new_state: T) -> (r: &T)
        requires
            old(self).wf_log(),
            old(self).history.may_follow(node),
            match node.generator {
                Generator::Snapshot(s) => H::restores(s, new_state),
                Generator::Command(c) => yields(
                    c,
                    old(self).versions@[old(self).history.current as int],
                    new_state,
                ),
            },
        ensures
            final(self).wf(),
            final(self).same_setup(&old(self)),
            final(self).view() == old(self).view().edited(new_state, old(self).spec_capacity()),
            *r == new_state,
            final(self).current_is_snapshot() == node.generator is Snapshot,
            final(self).current_metrics() == node.metrics,
            old(self).all_snapshots() && node.generator is Snapshot ==> final(self).all_snapshots(),
            old(self).only_first_snapshot() && node.generator is Command
                ==> final(self).only_first_snapshot(),
    {
        let ghost old_self = *self;
        let ghost cur = self.history.current as int;
        let ghost grown = self.history.grown(node);
        let ghost grown_versions = self.versions@.take(cur + 1).push(new_state);
        let ghost drop = self.history.dropped(node);
        let ghost first = if self.history.evicts() {
            self.history.logical_first + 1
        } else {
            self.history.logical_first as int
        };
        self.history.push_node(node);
        self.versions = Ghost(grown_versions.skip(drop));
        self.state = Some(new_state);
        proof {
            let nodes = self.history.inner@;
            let vs = self.versions@;
            assert forall|i: int| 0 <= i < vs.len() implies #[trigger] regenerates::<T, H, F, G>(nodes, vs, i) by {
                let j = i + drop;
                assert(nodes[i] == grown[j]);
                if j <= cur {
                    assert(regenerates::<T, H, F, G>(old_self.history.inner@, old_self.versions@, j));
                    assert(grown[j] == old_self.history.inner@[j]);
                    if nodes[i].generator is Command {
                        assert(anchored(nodes, i));
                        assert(vs[i - 1] == old_self.versions@[j - 1]);
                    }
                } else {
                    if nodes[i].generator is Command {
                        assert(anchored(nodes, i));
                    }
                }
            }
            assert(self.view().versions =~= old_self.view().edited(new_state, old_self.spec_capacity()).versions);
            if old_self.all_snapshots() && node.generator is Snapshot {
                assert forall|i: int| 0 <= i < nodes.len() implies (#[trigger] nodes[i]).generator is Snapshot by {
                    assert(nodes[i] == grown[i + drop]);
                    if i + drop <= cur {
                        assert(grown[i + drop] == old_self.history.inner@[i + drop]);
                    }
                }
            }
            if old_self.only_first_snapshot() && node.generator is Command {
                assert forall|i: int| 0 < i < nodes.len() implies (#[trigger] nodes[i]).generator is Command by {
                    assert(nodes[i] == grown[i + drop]);
                    if i + drop <= cur {
                        assert(grown[i + drop] == old_self.history.inner@[i + drop]);
                    }
                }
            }
        }
        self.get()
    }

    /// Stores the command that turned the current version into
    /// `new_state`, or a snapshot of `new_state` when the trigger asks for
    /// one, and makes `new_state` current.
    fn push_step(&mut self, step: Step<F, G>, new_state: T, elapsed: u128) -> (r: &T)
        requires
            old(self).wf_log(),
            yields(step, old(self).versions@[old(self).history.current as int], new_state),
        ensures
            final(self).wf(),
            final(self).same_setup(&old(self)),
            final(self).view() == old(self).view().edited(new_state, old(self).spec_capacity()),
            *r == new_state,
            trigger_decides(
                old(self).snapshot_trigger,
                old(self).current_metrics(),
                final(self).current_is_snapshot(),
                final(self).current_metrics(),
            ),
            trigger_always(old(self).snapshot_trigger) ==> final(self).current_is_snapshot(),
            trigger_always(old(self).snapshot_trigger) && old(self).all_snapshots()
                ==> final(self).all_snapshots(),
            trigger_never(old(self).snapshot_trigger) ==> !final(self).current_is_snapshot(),
            trigger_never(old(self).snapshot_trigger) && old(self).only_first_snapshot()
                ==> final(self).only_first_snapshot(),
    {
        let n = self.history.inner.len();
        proof {
            assert(anchored(self.history.inner@, self.history.current as int));
        }
        let last_metrics = *self.history.current().metrics();
        let new_metrics = last_metrics.make_next(elapsed);
        let take_snapshot = match &self.snapshot_trigger {
            Some(p) => p(&new_metrics),
            None => false,
        };
        let node = if take_snapshot {
            Node::from_snapshot(H::to_snapshot(&new_state))
        } else {
            Node::from_command(step, new_metrics)
        };
        let r = self.install(node, new_state);
        proof {
            if let Some(p) = old(self).snapshot_trigger {
                assert(p.ensures((&new_metrics,), take_snapshot));
            }
        }
        r
    }

    pub(crate) fn edit(&mut self, command: F) -> (r: &T)
        requires
            old(self).wf(),
            pure_command(command),
        ensures
            final(self).wf(),
            final(self).same_setup(&old(self)),
            command.ensures((old(self).view().current(),), *r),
            final(self).view() == old(self).view().edited(*r, old(self).spec_capacity()),
            trigger_decides(
                old(self).snapshot_trigger,
                old(self).current_metrics(),
                final(self).current_is_snapshot(),
                final(self).current_metrics(),
            ),
            trigger_always(old(self).snapshot_trigger) ==> final(self).current_is_snapshot(),
            trigger_always(old(self).snapshot_trigger) && old(self).all_snapshots()
                ==> final(self).all_snapshots(),
            trigger_never(old(self).snapshot_trigger) ==> !final(self).current_is_snapshot(),
            trigger_never(old(self).snapshot_trigger) && old(self).only_first_snapshot()
                ==> final(self).only_first_snapshot(),
    {
        let ghost x = self.view().current();
        let old_state = self.take();
        let start = Instant::now();
        let new_state = command(old_state);
        let elapsed = start.elapsed().as_nanos();
        proof {
            assert(command.requires((x,)));
            assert forall|r: T| command.ensures((x,), r) implies r == new_state by {
                assert(command.ensures((x,), new_state));
            }
        }
        self.push_step(Step::Apply(command), new_state, elapsed)
    }

    pub(crate) fn edit_if(&mut self, command: G) -> (r: Option<&T>)
        requires
            old(self).wf(),
            pure_conditional(command),
        ensures
            final(self).wf(),
            final(self).same_setup(&old(self)),
            match r {
                Some(y) => {
                    &&& command.ensures((old(self).view().current(),), Some(*y))
                    &&& final(self).view() == old(self).view().edited(*y, old(self).spec_capacity())
                },
                None => {
                    &&& command.ensures((old(self).view().current(),), None::<T>)
                    &&& final(self).view() == old(self).view()
                    &&& final(self).history == old(self).history
                },
            },
            r is Some ==> trigger_decides(
                    old(self).snapshot_trigger,
                    old(self).current_metrics(),
                    final(self).current_is_snapshot(),
                    final(self).current_metrics(),
                ),
            r is Some && trigger_always(old(self).snapshot_trigger) ==> final(self).current_is_snapshot(),
            trigger_always(old(self).snapshot_trigger) && old(self).all_snapshots()
                ==> final(self).all_snapshots(),
            r is Some && trigger_never(old(self).snapshot_trigger) ==> !final(self).current_is_snapshot(),
            trigger_never(old(self).snapshot_trigger) && old(self).only_first_snapshot()
                ==> final(self).only_first_snapshot(),
    {
        let ghost x = self.view().current();
        let old_state = self.take();
        let start = Instant::now();
        let result = command(old_state);
        let elapsed = start.elapsed().as_nanos();
        match result {
            Some(new_state) => {
                proof {
                    assert(command.requires((x,)));
                    assert forall|r: Option<T>| command.ensures((x,), r) implies r == Some(new_state) by {
                        assert(command.ensures((x,), Some(new_state)));
                    }
                }
                Some(self.push_step(Step::Filter(command), new_state, elapsed))
            },
            None => {
                // The command consumed the state: regenerate it.
                self.reset_state();
                None
            },
        }
    }

    pub(crate) fn try_edit<E, C: FnOnce(T) -> Result<T, E>>(&mut self, command: C) -> (r: Result<&T, E>)
        requires
            old(self).wf(),
            command.requires((old(self).view().current(),)),
        ensures
            final(self).wf(),
            final(self).same_setup(&old(self)),
            match r {
                Ok(y) => {
                    &&& command.ensures((old(self).view().current(),), Ok::<T, E>(*y))
                    &&& final(self).view() == old(self).view().edited(*y, old(self).spec_capacity())
                },
                Err(e) => {
                    &&& command.ensures((old(self).view().current(),), Err::<T, E>(e))
                    &&& final(self).view() == old(self).view()
                    &&& final(self).history == old(self).history
                },
            },
            r is Ok ==> final(self).current_is_snapshot() && final(self).current_metrics().is_zero(),
            old(self).all_snapshots() ==> final(self).all_snapshots(),
    {
        let old_state = self.take();
        match command(old_state) {
            Ok(new_state) => {
                // A command that ran once cannot be replayed: keep its result.
                let node = Node::from_snapshot(H::to_snapshot(&new_state));
                Ok(self.install(node, new_state))
            },
            Err(e) => {
                self.reset_state();
                Err(e)
            },
        }
    }

    pub(crate) fn jump(&mut self, count: isize) -> (r: Option<&T>)
        requires
            old(self).wf(),
        ensures
            final(self).wf(),
            final(self).same_setup(&old(self)),
            final(self).history.inner == old(self).history.inner,
            match old(self).view().jumped(count as int) {
                Some(v) => final(self).view() == v && r == Some(&final(self).view().current()),
                None => final(self).view() == old(self).view() && r is None,
            },
    {
        if count < 0 {
            let back = ((-(count + 1)) as usize) + 1;
            self.undo_multi(back)
        } else {
            self.redo_multi(count as usize)
        }
    }
}

} // verus!
