//! The history log: snapshots and commands, a cursor, and capacity eviction.
use crate::metrics::Metrics;
use vstd::prelude::*;

verus! {

/// What an entry holds: a command to replay, or a snapshot to restore.
pub(crate) enum Generator<C, S> {
    Command(C),
    Snapshot(S),
}

impl<C, S> Generator<C, S> {
    pub(crate) fn is_snapshot(&self) -> (r: bool)
        ensures
            r == (*self is Snapshot),
    {
        match self {
            Generator::Snapshot(_) => true,
            Generator::Command(_) => false,
        }
    }

    pub(crate) fn snapshot(&self) -> (r: Option<&S>)
        ensures
            r matches Some(s) <==> *self is Snapshot,
            r matches Some(s) ==> *self == Generator::<C, S>::Snapshot(*s),
    {
        match self {
            Generator::Snapshot(s) => Some(s),
            Generator::Command(_) => None,
        }
    }

    pub(crate) fn command(&self) -> (r: Option<&C>)
        ensures
            r matches Some(c) <==> *self is Command,
            r matches Some(c) ==> *self == Generator::<C, S>::Command(*c),
    {
        match self {
            Generator::Snapshot(_) => None,
            Generator::Command(c) => Some(c),
        }
    }
}

/// One entry of the history.
pub(crate) struct Node<C, S> {
    pub(crate) generator: Generator<C, S>,
    pub(crate) metrics: Metrics,
}

impl<C, S> Node<C, S> {
    pub(crate) fn from_command(command: C, metrics: Metrics) -> (r: Self)
        ensures
            r.generator == Generator::<C, S>::Command(command),
            r.metrics == metrics,
    {
        Node { generator: Generator::Command(command), metrics }
    }

    pub(crate) fn from_snapshot(snapshot: S) -> (r: Self)
        ensures
            r.generator == Generator::<C, S>::Snapshot(snapshot),
            r.metrics.is_zero(),
    {
        Node { generator: Generator::Snapshot(snapshot), metrics: Metrics::zero() }
    }

    pub(crate) fn generator(&self) -> (r: &Generator<C, S>)
        ensures
            *r == self.generator,
    {
        &self.generator
    }

    pub(crate) fn metrics(&self) -> (r: &Metrics)
        ensures
            *r == self.metrics,
    {
        &self.metrics
    }
}

/// The log of entries. Entries before `logical_first` are evicted: they are
/// out of reach of undo, and kept only until an entry that is a snapshot
/// becomes the first one in reach, since later commands replay from them.
pub(crate) struct History<C, S> {
    pub(crate) inner: Vec<Node<C, S>>,
    pub(crate) current: usize,
    pub(crate) capacity: usize,
    pub(crate) logical_first: usize,
}

/// Entry `i` of `n` finds its snapshot `distance` entries back, and only
/// commands lie after that snapshot, up to entry `i`.
pub(crate) open spec fn anchored<C, S>(n: Seq<Node<C, S>>, i: int) -> bool {
    let d = n[i].metrics.spec_distance() as int;
    &&& d <= i
    &&& (n[i].generator is Snapshot <==> d == 0)
    &&& n[i - d].generator is Snapshot
    &&& forall|k: int| i - d < k <= i ==> (#[trigger] n[k]).generator is Command
}

/// What entry `i` of `n` regenerates from: the index of its snapshot.
pub(crate) open spec fn anchor<C, S>(n: Seq<Node<C, S>>, i: int) -> int {
    i - n[i].metrics.spec_distance() as int
}

impl<C, S> History<C, S> {
    pub(crate) open spec fn wf(&self) -> bool {
        let n = self.inner@;
        &&& n.len() >= 1
        &&& self.logical_first <= self.current < n.len()
        &&& n[0].generator is Snapshot
        &&& forall|i: int| 0 <= i < n.len() ==> #[trigger] anchored(n, i)
        &&& self.capacity > 0 ==> n.len() - self.logical_first <= self.capacity
    }

    /// The number of entries in reach.
    pub(crate) open spec fn spec_len(&self) -> int {
        self.inner@.len() - self.logical_first
    }

    /// A node may follow the current entry: a snapshot, or a command one
    /// step further from the current entry's snapshot.
    pub(crate) open spec fn may_follow(&self, node: Node<C, S>) -> bool {
        let d = node.metrics.spec_distance() as int;
        &&& node.generator is Snapshot ==> d == 0
        &&& node.generator is Command ==> d == self.inner@[self.current as int].metrics.spec_distance() + 1
    }

    /// Whether pushing one more entry evicts the first entry in reach.
    pub(crate) open spec fn evicts(&self) -> bool {
        self.capacity != 0 && self.capacity < self.current + 2 - self.logical_first
    }

    /// The entries after pushing `node`, before any are dropped.
    pub(crate) open spec fn grown(&self, node: Node<C, S>) -> Seq<Node<C, S>> {
        self.inner@.take(self.current + 1).push(node)
    }

    /// How many entries a push of `node` drops from the front: all before
    /// the first entry in reach, when that entry is a snapshot.
    pub(crate) open spec fn dropped(&self, node: Node<C, S>) -> int {
        let first = self.logical_first + 1;
        if self.evicts() && self.grown(node)[first as int].generator is Snapshot {
            first as int
        } else {
            0
        }
    }

    pub(crate) fn new_unlimited(init: Node<C, S>) -> (r: Self)
        requires
            init.generator is Snapshot,
            init.metrics.spec_distance() == 0,
        ensures
            r.wf(),
            r.inner@ == seq![init],
            r.current == 0,
            r.logical_first == 0,
            r.capacity == 0,
    {
        let mut v = Vec::new();
        v.push(init);
        History { inner: v, current: 0, capacity: 0, logical_first: 0 }
    }

    pub(crate) fn new(init: Node<C, S>, capacity: usize) -> (r: Self)
        requires
            init.generator is Snapshot,
            init.metrics.spec_distance() == 0,
        ensures
            r.wf(),
            r.inner@ == seq![init],
            r.current == 0,
            r.logical_first == 0,
            r.capacity == capacity,
    {
        let mut history = History::new_unlimited(init);
        history.capacity = capacity;
        history
    }

    /// Drops the entries before the first one in reach, when that entry is
    /// a snapshot: nothing after it replays from them.
    fn trim_before_snapshot(&mut self)
        requires
            old(self).logical_first < old(self).inner@.len(),
            old(self).logical_first <= old(self).current < old(self).inner@.len(),
        ensures
            final(self).capacity == old(self).capacity,
            if old(self).inner@[old(self).logical_first as int].generator is Snapshot {
                &&& final(self).inner@ == old(self).inner@.skip(old(self).logical_first as int)
                &&& final(self).current == old(self).current - old(self).logical_first
                &&& final(self).logical_first == 0
            } else {
                *final(self) == *old(self)
            },
    {
        if self.get_node_inner(self.logical_first).generator().is_snapshot() {
            let tail = self.inner.split_off(self.logical_first);
            self.inner = tail;
            self.current = self.current - self.logical_first;
            self.logical_first = 0;
        }
    }

    /// Discards the entries after the current one, appends `node` and makes
    /// it current; evicts the first entry in reach when the capacity is
    /// exceeded.
    pub(crate) fn push_node(&mut self, node: Node<C, S>)
        requires
            old(self).wf(),
            old(self).may_follow(node),
        ensures
            final(self).wf(),
            final(self).capacity == old(self).capacity,
            final(self).inner@ == old(self).grown(node).skip(old(self).dropped(node)),
            final(self).logical_first == (if old(self).evicts() {
                old(self).logical_first + 1
            } else {
                old(self).logical_first as int
            }) - old(self).dropped(node),
            final(self).current == old(self).current + 1 - old(self).dropped(node),
    {
        let ghost old_self = *self;
        let ghost grown = self.grown(node);
        let _ = self.inner.len();
        self.inner.truncate(self.current + 1);
        self.inner.push(node);
        assert(self.inner@ == grown);
        let n = self.inner.len();
        self.current = n - 1;
        let evict = self.capacity != 0 && self.capacity < n - self.logical_first;
        proof {
            let n = grown;
            let o = old_self.inner@;
            assert forall|i: int| 0 <= i < n.len() implies #[trigger] anchored(n, i) by {
                if i < n.len() - 1 {
                    assert(anchored(o, i));
                    assert forall|k: int| anchor(n, i) < k <= i implies (#[trigger] n[k]).generator is Command by {
                        assert(o[k] == n[k]);
                    }
                } else {
                    let c = old_self.current as int;
                    assert(anchored(o, c));
                    if node.generator is Command {
                        assert forall|k: int| anchor(n, i) < k <= i implies (#[trigger] n[k]).generator is Command by {
                            if k < i {
                                assert(o[k] == n[k]);
                            }
                        }
                    }
                }
            }
        }
        if evict {
            self.logical_first = self.logical_first + 1;
            self.trim_before_snapshot();
            proof {
                let n = self.inner@;
                if grown[old_self.logical_first + 1].generator is Snapshot {
                    let f = old_self.logical_first + 1;
                    assert forall|i: int| 0 <= i < n.len() implies #[trigger] anchored(n, i) by {
                        assert(anchored(grown, i + f));
                        assert(n[i] == grown[i + f]);
                        let d = grown[i + f].metrics.spec_distance() as int;
                        if d > i {
                            assert(grown[f].generator is Command);
                        }
                        assert(n[i - d] == grown[i + f - d]);
                        assert forall|k: int| anchor(n, i) < k <= i implies (#[trigger] n[k]).generator is Command by {
                            assert(n[k] == grown[k + f]);
                        }
                    }
                }
            }
        }
    }

    pub(crate) fn capacity(&self) -> (r: usize)
        ensures
            r == self.capacity,
    {
        self.capacity
    }

    fn get_node_inner(&self, index: usize) -> (r: &Node<C, S>)
        requires
            index < self.inner@.len(),
        ensures
            *r == self.inner@[index as int],
    {
        &self.inner[index]
    }

    /// The entry at physical index `index`.
    pub(crate) fn node(&self, index: usize) -> (r: &Node<C, S>)
        requires
            index < self.inner@.len(),
        ensures
            *r == self.inner@[index as int],
    {
        self.get_node_inner(index)
    }

    pub(crate) fn current(&self) -> (r: &Node<C, S>)
        requires
            self.wf(),
        ensures
            *r == self.inner@[self.current as int],
    {
        self.get_node_inner(self.current)
    }

    /// The cursor, counted from the first entry in reach.
    pub(crate) fn current_index(&self) -> (r: usize)
        requires
            self.wf(),
        ensures
            r == self.current - self.logical_first,
    {
        self.current - self.logical_first
    }

    /// Moves the cursor to `index`, counted from the first entry in reach;
    /// false, with nothing changed, when no such entry exists.
    pub(crate) fn set_current(&mut self, index: usize) -> (r: bool)
        requires
            old(self).wf(),
        ensures
            final(self).wf(),
            r == (index < old(self).spec_len()),
            final(self).inner == old(self).inner,
            final(self).capacity == old(self).capacity,
            final(self).logical_first == old(self).logical_first,
            final(self).current == (if r {
                index + old(self).logical_first
            } else {
                old(self).current as int
            }),
    {
        if self.len() <= index {
            false
        } else {
            self.current = self.inner_index(index);
            true
        }
    }

    /// The number of entries in reach.
    pub(crate) fn len(&self) -> (r: usize)
        requires
            self.wf(),
        ensures
            r == self.spec_len(),
    {
        self.inner.len() - self.logical_first
    }

    pub(crate) fn len_before_current(&self) -> (r: usize)
        requires
            self.wf(),
        ensures
            r == self.current - self.logical_first,
    {
        self.current - self.logical_first
    }

    pub(crate) fn len_after_current(&self) -> (r: usize)
        requires
            self.wf(),
        ensures
            r == self.inner@.len() - self.current - 1,
    {
        self.inner.len() - self.current - 1
    }

    /// The physical index of the snapshot that entry `inner_index`
    /// regenerates from, found from the distance stored in the entry.
    pub(crate) fn find_last_snapshot_index_inner(&self, inner_index: usize) -> (r: usize)
        requires
            self.wf(),
            inner_index < self.inner@.len(),
        ensures
            r == anchor(self.inner@, inner_index as int),
            self.inner@[r as int].generator is Snapshot,
    {
        proof {
            assert(anchored(self.inner@, inner_index as int));
        }
        let node = self.get_node_inner(inner_index);
        match node.generator() {
            Generator::Snapshot(_) => inner_index,
            Generator::Command(_) => {
                let m = node.metrics();
                inner_index - m.distance_from_snapshot()
            },
        }
    }

    /// The index, counted from the first entry in reach, of the snapshot
    /// that entry `index` regenerates from; None when that snapshot lies
    /// before the first entry in reach, or when there is no entry `index`.
    pub(crate) fn find_last_snapshot_index(&self, index: usize) -> (r: Option<usize>)
        requires
            self.wf(),
        ensures
            r == (if index >= self.spec_len() || anchor(self.inner@, index + self.logical_first)
                < self.logical_first {
                None
            } else {
                Some((anchor(self.inner@, index + self.logical_first) - self.logical_first) as usize)
            }),
    {
        if self.len() <= index {
            return None;
        }
        let inner = self.find_last_snapshot_index_inner(self.inner_index(index));
        self.outer_index(inner)
    }

    fn outer_index(&self, inner_index: usize) -> (r: Option<usize>)
        ensures
            r == (if inner_index < self.logical_first {
                None
            } else {
                Some((inner_index - self.logical_first) as usize)
            }),
    {
        if inner_index < self.logical_first {
            None
        } else {
            Some(inner_index - self.logical_first)
        }
    }

    fn inner_index(&self, index: usize) -> (r: usize)
        requires
            self.wf(),
            index < self.spec_len(),
        ensures
            r == index + self.logical_first,
    {
        let len = self.inner.len();
        assert(index + self.logical_first < len);
        index + self.logical_first
    }
}

} // verus!
