use vstd::prelude::*;
use crate::pose::{BotPose, WorldSnapshot};

verus! {

/// Depth of the snapshot channel: how many unconsumed snapshots the producer
/// may queue before it has to wait for the consumer.
pub const CHANNEL_DEPTH: usize = 8;

/// Bounded FIFO handoff of snapshots from the tick scheduler to the display
/// driver. This is the channel's state and transfer discipline: `try_send`
/// refuses (and hands the snapshot back) exactly when the queue is full, so a
/// producer that retries a refused send blocks until the consumer drains, and
/// `poll` always returns at once, with the oldest snapshot or with nothing.
/// The cross-thread transport around this state is unverified glue.
pub struct SnapshotChannel {
    queue: Vec<WorldSnapshot>,
    capacity: usize,
}

impl View for SnapshotChannel {
    type V = Seq<Seq<BotPose>>;

    /// The queued snapshots, oldest first, each as its pose sequence.
    closed spec fn view(&self) -> Seq<Seq<BotPose>> {
        self.queue@.map_values(|s: WorldSnapshot| s@)
    }
}

impl SnapshotChannel {
    pub closed spec fn spec_capacity(&self) -> int {
        self.capacity as int
    }

    /// The channel never holds more snapshots than its capacity.
    pub open spec fn wf(&self) -> bool {
        1 <= self.spec_capacity() && self@.len() <= self.spec_capacity()
    }

    pub fn new(capacity: usize) -> (r: SnapshotChannel)
        requires
            1 <= capacity,
        ensures
            r.wf(),
            r@ == Seq::<Seq<BotPose>>::empty(),
            r.spec_capacity() == capacity,
    {
        let r = SnapshotChannel { queue: Vec::new(), capacity };
        proof {
            assert(r@ =~= Seq::<Seq<BotPose>>::empty());
        }
        r
    }

    pub fn capacity(&self) -> (c: usize)
        ensures
            c == self.spec_capacity(),
    {
        self.capacity
    }

    pub fn queued(&self) -> (n: usize)
        ensures
            n == self@.len(),
    {
        self.queue.len()
    }

    /// Producer side. The snapshot is queued behind all earlier ones, except
    /// when the queue already holds `capacity` snapshots: then nothing changes
    /// and the snapshot comes back to the caller, who must retry after the
    /// consumer has drained — the sole backpressure bounding how far the
    /// simulation runs ahead of rendering.
    pub fn try_send(&mut self, snapshot: WorldSnapshot) -> (r: Result<(), WorldSnapshot>)
        requires
            old(self).wf(),
        ensures
            final(self).wf(),
            final(self).spec_capacity() == old(self).spec_capacity(),
            old(self)@.len() < old(self).spec_capacity() ==> r is Ok && final(self)@ == old(self)@.push(snapshot@),
            old(self)@.len() >= old(self).spec_capacity() ==> final(self)@ == old(self)@ && (
            r matches Err(back) && back@ == snapshot@),
    {
        if self.queue.len() < self.capacity {
            let ghost pre = self.queue@;
            let ghost posted = snapshot@;
            self.queue.push(snapshot);
            proof {
                assert(self@ =~= pre.map_values(|s: WorldSnapshot| s@).push(posted));
            }
            Ok(())
        } else {
            Err(snapshot)
        }
    }

    /// Consumer side: a non-blocking poll. It never waits: it returns the
    /// oldest unconsumed snapshot, transferring it to the caller, or reports
    /// that no update is queued — which is a normal outcome, not an error.
    pub fn poll(&mut self) -> (r: Option<WorldSnapshot>)
        requires
            old(self).wf(),
        ensures
            final(self).wf(),
            final(self).spec_capacity() == old(self).spec_capacity(),
            old(self)@.len() == 0 ==> r is None && final(self)@ == old(self)@,
            old(self)@.len() > 0 ==> (r matches Some(s) && s@ == old(self)@[0]) && final(self)@ == old(self)@.drop_first(),
    {
        if self.queue.len() == 0 {
            None
        } else {
            let ghost pre = self.queue@;
            let first = self.queue.remove(0);
            proof {
                assert(self@ =~= pre.map_values(|s: WorldSnapshot| s@).drop_first());
            }
            Some(first)
        }
    }
    /// Receive every queued snapshot on successive polls — the consumer policy
    /// that displays each one. The result states the channel's transfer law:
    /// the snapshots come out exactly once each, in send order, none
    /// duplicated and none dropped, and the channel is left empty.
    pub fn drain(&mut self) -> (all: Vec<WorldSnapshot>)
        requires
            old(self).wf(),
        ensures
            final(self).wf(),
            final(self).spec_capacity() == old(self).spec_capacity(),
            final(self)@.len() == 0,
            all@.map_values(|s: WorldSnapshot| s@) == old(self)@,
    {
        let mut all: Vec<WorldSnapshot> = Vec::new();
        while self.queued() > 0
            invariant
                self.wf(),
                self.spec_capacity() == old(self).spec_capacity(),
                all@.len() <= old(self)@.len(),
                self@ == old(self)@.skip(all@.len() as int),
                all@.map_values(|s: WorldSnapshot| s@) == old(self)@.take(all@.len() as int),
            decreases self@.len(),
        {
            let ghost done = all@.len() as int;
            if let Some(s) = self.poll() {
                all.push(s);
                proof {
                    assert(old(self)@.skip(done).drop_first() =~= old(self)@.skip(done + 1));
                    assert(all@.map_values(|s: WorldSnapshot| s@) =~= old(self)@.take(done + 1));
                }
            }
        }
        proof {
            assert(old(self)@.take(all@.len() as int) =~= old(self)@);
        }
        all
    }
}

/// Bounded-memory law: whatever the producer and consumer have done, a well
/// formed channel holds at most `capacity` unconsumed snapshots; together with
/// `try_send`, which refuses exactly when that bound is reached, the producer
/// can never queue more than `capacity` snapshots ahead of the consumer.
pub proof fn lemma_channel_bounded(ch: &SnapshotChannel)
    requires
        ch.wf(),
    ensures
        ch@.len() <= ch.spec_capacity(),
{
}

} // verus!
