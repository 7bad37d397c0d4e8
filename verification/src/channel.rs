use vstd::prelude::*;

use crate::action::Action;
use crate::scan::{Props, PropsView};

verus! {

/// Mathematical image of the snapshot channel's slot.
pub struct SnapshotCellView {
    pub value: PropsView,
    pub version: int,
}

/// The single-slot, latest-value snapshot channel from the driver to its
/// readers: publishing overwrites the held value, so a slow reader skips
/// intermediate snapshots but always finds the most recent one. The version
/// counts publishes, and lets each reader keep its own seen mark.
pub struct SnapshotCell {
    pub value: Props,
    pub version: u64,
}

impl View for SnapshotCell {
    type V = SnapshotCellView;

    open spec fn view(&self) -> SnapshotCellView {
        SnapshotCellView { value: self.value@, version: self.version as int }
    }
}

impl SnapshotCell {
    /// A channel holding its initial snapshot, which counts as already
    /// seen by readers made alongside it.
    pub fn new(initial: Props) -> (r: Self)
        ensures
            r@.value == initial@,
            r@.version == 0,
    {
        SnapshotCell { value: initial, version: 0 }
    }

    /// Publish a snapshot: the previously held value is overwritten whether
    /// or not anyone read it.
    pub fn publish(&mut self, value: Props)
        requires
            old(self)@.version < u64::MAX,
        ensures
            final(self)@.value == value@,
            final(self)@.version == old(self)@.version + 1,
    {
        self.value = value;
        self.version = self.version + 1;
    }
}

/// One reader's private mark of the last version it observed on a snapshot
/// channel. Readers track change detection themselves: the channel does
/// not re-deliver.
pub struct SnapshotReader {
    pub seen: u64,
}

impl SnapshotReader {
    /// A reader that has seen the channel's initial value and nothing
    /// after it.
    pub fn new() -> (r: Self)
        ensures
            r.seen == 0,
    {
        SnapshotReader { seen: 0 }
    }

    /// Read the latest value: always the one the slot currently holds, with
    /// a flag saying whether it is news to this reader. Re-reading without
    /// an intervening publish returns an equal value, flagged as seen.
    pub fn read<'a>(&mut self, cell: &'a SnapshotCell) -> (r: (&'a Props, bool))
        ensures
            r.0@ == cell@.value,
            r.1 == (old(self).seen != cell.version),
            final(self).seen == cell.version,
    {
        let fresh = self.seen != cell.version;
        self.seen = cell.version;
        (&cell.value, fresh)
    }
}

/// Re-reading the snapshot channel without an intervening publish is
/// idempotent: any two values read from the same slot state are equal.
pub proof fn lemma_snapshot_reread_idempotent(c: SnapshotCellView, v1: PropsView, v2: PropsView)
    requires
        v1 == c.value,
        v2 == c.value,
    ensures
        v1 == v2,
{
}

/// The bounded FIFO command queue from the frontend to the driver. An
/// enqueue beyond capacity is refused and the producer tries again once
/// space frees (backpressure): a command is never silently dropped. The
/// dequeue side is non-blocking.
pub struct ActionQueue {
    pub items: Vec<Action>,
    pub capacity: usize,
}

impl View for ActionQueue {
    type V = Seq<Action>;

    open spec fn view(&self) -> Seq<Action> {
        self.items@
    }
}

impl ActionQueue {
    /// An empty queue that holds at most `capacity` pending commands.
    pub fn new(capacity: usize) -> (r: Self)
        requires
            0 < capacity,
        ensures
            r@ == Seq::<Action>::empty(),
            r.capacity == capacity,
    {
        let r = ActionQueue { items: Vec::new(), capacity };
        proof {
            assert(r@ =~= Seq::<Action>::empty());
        }
        r
    }

    /// Append a command unless the queue is full; a refused command is
    /// handed back to the producer, which retries once space frees, rather
    /// than being dropped.
    pub fn try_enqueue(&mut self, a: Action) -> (refused: Option<Action>)
        ensures
            refused is None <==> old(self)@.len() < old(self).capacity,
            refused is None ==> final(self)@ == old(self)@.push(a),
            refused is Some ==> refused == Some(a) && final(self)@ == old(self)@,
            final(self).capacity == old(self).capacity,
    {
        if self.items.len() < self.capacity {
            self.items.push(a);
            None
        } else {
            Some(a)
        }
    }

    /// Remove and return the earliest enqueued command, without blocking:
    /// `None` when nothing is pending.
    pub fn try_dequeue(&mut self) -> (r: Option<Action>)
        ensures
            old(self)@.len() == 0 ==> r is None && final(self)@ == old(self)@,
            old(self)@.len() > 0 ==> r == Some(old(self)@[0]) && final(self)@ == old(
                self,
            )@.drop_first(),
            final(self).capacity == old(self).capacity,
    {
        if self.items.len() == 0 {
            None
        } else {
            let a = self.items.remove(0);
            proof {
                assert(self.items@ =~= old(self).items@.drop_first());
            }
            Some(a)
        }
    }
}

/// Commands keep their enqueue order: after enqueueing `a`, `b`, `c` onto
/// whatever was already pending, dequeues hand out the pending commands
/// first and then exactly `a`, `b`, `c`, in that order.
pub proof fn lemma_fifo_order(s: Seq<Action>, a: Action, b: Action, c: Action)
    ensures
        s.push(a).push(b).push(c).skip(s.len() as int) =~= seq![a, b, c],
{
}

} // verus!
