//! The rule by which the worker decides whether it may compute another
//! snapshot: a bounded lookahead, paid for with acknowledgements.
//!
//! The worker may be `limit` snapshots ahead of its consumer.  Once it is,
//! every further snapshot costs one acknowledgement.  This file holds the
//! rule as plain mathematics, and what follows from it.

use vstd::prelude::*;

verus! {

/// The most acknowledgements that are remembered.  Further ones are
/// dropped.
pub const MAX_CREDITS: u64 = u64::MAX;

/// The part of the worker's state that decides whether it advances.
pub struct Flow {
    /// Whether the worker has been told to pause.
    pub paused: bool,
    /// Snapshots published since the window was last emptied, counted up to
    /// the limit.
    pub cache_fill: nat,
    /// Acknowledgements received and not yet spent.
    pub consumption_count: nat,
}

/// The smaller of two numbers.
pub open spec fn least(a: int, b: int) -> int {
    if a <= b {
        a
    } else {
        b
    }
}

impl Flow {
    /// The flow of a worker that has just been started: running, with an
    /// empty window and no credit.
    pub open spec fn start() -> Flow {
        Flow { paused: false, cache_fill: 0, consumption_count: 0 }
    }

    /// Whether the worker computes a snapshot in this tick: it runs, and
    /// the window has room or there is credit.
    pub open spec fn may_advance(self, limit: nat) -> bool {
        !self.paused && (self.cache_fill < limit || self.consumption_count > 0)
    }

    /// The flow after a snapshot has been published: the window takes it
    /// if it has room, else one credit is spent.
    pub open spec fn published(self, limit: nat) -> Flow {
        if self.cache_fill < limit {
            Flow { cache_fill: self.cache_fill + 1, ..self }
        } else {
            Flow { consumption_count: (self.consumption_count - 1) as nat, ..self }
        }
    }

    /// The flow after one acknowledgement.
    pub open spec fn acknowledged(self) -> Flow {
        if self.consumption_count < MAX_CREDITS {
            Flow { consumption_count: self.consumption_count + 1, ..self }
        } else {
            self
        }
    }

    /// The flow after `count` acknowledgements.
    pub open spec fn acknowledged_times(self, count: nat) -> Flow
        decreases count,
    {
        if count == 0 {
            self
        } else {
            self.acknowledged_times((count - 1) as nat).acknowledged()
        }
    }

    /// The flow after the order to pause.
    pub open spec fn halted(self) -> Flow {
        Flow { paused: true, ..self }
    }

    /// The flow after the order to go on: running, and the window and the
    /// credit start from nothing.
    pub open spec fn resumed(self) -> Flow {
        Flow::start()
    }

    /// The flow after a tick in which no command came and the snapshot, if
    /// one was due, was published.
    pub open spec fn tick(self, limit: nat) -> Flow {
        if self.may_advance(limit) {
            self.published(limit)
        } else {
            self
        }
    }

    /// The flow after `count` such ticks.
    pub open spec fn ticks(self, limit: nat, count: nat) -> Flow
        decreases count,
    {
        if count == 0 {
            self
        } else {
            self.ticks(limit, (count - 1) as nat).tick(limit)
        }
    }

    /// The number of snapshots published in `count` such ticks.
    pub open spec fn snapshots(self, limit: nat, count: nat) -> nat
        decreases count,
    {
        if count == 0 {
            0
        } else {
            let before = self.snapshots(limit, (count - 1) as nat);
            if self.ticks(limit, (count - 1) as nat).may_advance(limit) {
                before + 1
            } else {
                before
            }
        }
    }

    /// The number of snapshots that the flow still allows if nothing more
    /// is acknowledged: the room in the window and the credit.
    pub open spec fn budget(self, limit: nat) -> int {
        if self.paused {
            0
        } else {
            limit - self.cache_fill + self.consumption_count
        }
    }
}

/// A worker that is left alone publishes until its budget is used up, one
/// snapshot per tick, and then stops.
///
/// In `count` ticks without commands a running worker publishes `count`
/// snapshots or as many as its budget allows, whichever is less.  The room
/// in the window is used before the credit.
pub proof fn ticks_spend_budget(flow: Flow, limit: nat, count: nat)
    requires
        flow.cache_fill <= limit,
    ensures
        flow.snapshots(limit, count) == least(count as int, flow.budget(limit)),
        flow.ticks(limit, count).paused == flow.paused,
        flow.ticks(limit, count).cache_fill <= limit,
        !flow.paused ==> flow.ticks(limit, count).cache_fill == least(
            (flow.cache_fill + count) as int,
            limit as int,
        ),
        flow.ticks(limit, count).budget(limit) == flow.budget(limit) - flow.snapshots(limit, count),
        count >= flow.budget(limit) ==> !flow.ticks(limit, count).may_advance(limit),
    decreases count,
{
    if count > 0 {
        ticks_spend_budget(flow, limit, (count - 1) as nat);
    }
}

/// A run of ticks is its first tick followed by the run of the others.
pub proof fn ticks_from_second(flow: Flow, limit: nat, count: nat)
    requires
        count > 0,
    ensures
        flow.ticks(limit, count) == flow.tick(limit).ticks(limit, (count - 1) as nat),
        flow.snapshots(limit, count) == flow.tick(limit).snapshots(limit, (count - 1) as nat) + (
        if flow.may_advance(limit) {
            1nat
        } else {
            0nat
        }),
    decreases count,
{
    let next = flow.tick(limit);
    if count > 1 {
        ticks_from_second(flow, limit, (count - 1) as nat);
        assert(next.ticks(limit, (count - 1) as nat) == next.ticks(
            limit,
            (count - 2) as nat,
        ).tick(limit));
        assert(flow.ticks(limit, count) == flow.ticks(limit, (count - 1) as nat).tick(limit));
    } else {
        assert(flow.ticks(limit, 0) == flow);
        assert(next.ticks(limit, 0) == next);
        assert(flow.ticks(limit, 1) == flow.ticks(limit, 0).tick(limit));
        assert(flow.snapshots(limit, 0) == 0);
        assert(next.snapshots(limit, 0) == 0);
    }
}

/// With a lookahead limit of `limit`, a fresh worker that gets no
/// acknowledgement and no pause publishes exactly `min(count, limit)`
/// snapshots in `count` ticks.  Its window fills up to `limit` and then it
/// advances no more.
pub proof fn lookahead_is_bounded(limit: nat, count: nat)
    ensures
        Flow::start().snapshots(limit, count) == least(count as int, limit as int),
        Flow::start().ticks(limit, count).cache_fill == least(count as int, limit as int),
        Flow::start().ticks(limit, count).consumption_count == 0,
        count >= limit ==> !Flow::start().ticks(limit, count).may_advance(limit),
{
    ticks_spend_budget(Flow::start(), limit, count);
}

/// Acknowledgements add up, as long as no more than `MAX_CREDITS` are
/// remembered.
pub proof fn acknowledgements_add_up(flow: Flow, count: nat)
    requires
        flow.consumption_count + count <= MAX_CREDITS,
    ensures
        flow.acknowledged_times(count) == (Flow {
            consumption_count: flow.consumption_count + count,
            ..flow
        }),
    decreases count,
{
    if count > 0 {
        acknowledgements_add_up(flow, (count - 1) as nat);
    }
}

/// Once the window is full, `acks` acknowledgements allow exactly `acks`
/// more snapshots.
///
/// A running worker with a full window and no credit that receives `acks`
/// acknowledgements publishes one snapshot in each of the next `acks`
/// ticks and none after them; its window stays full and its credit is
/// used up.
pub proof fn acknowledgements_buy_advances(limit: nat, acks: nat, count: nat)
    requires
        acks <= MAX_CREDITS,
    ensures
        ({
            let full = Flow { paused: false, cache_fill: limit, consumption_count: 0 };
            let paid = full.acknowledged_times(acks);
            &&& !full.may_advance(limit)
            &&& paid.snapshots(limit, count) == least(count as int, acks as int)
            &&& paid.ticks(limit, count).cache_fill == limit
            &&& paid.ticks(limit, count).consumption_count == acks - least(
                count as int,
                acks as int,
            )
            &&& count >= acks ==> !paid.ticks(limit, count).may_advance(limit)
        }),
{
    let full = Flow { paused: false, cache_fill: limit, consumption_count: 0 };
    acknowledgements_add_up(full, acks);
    ticks_spend_budget(full.acknowledged_times(acks), limit, count);
}

/// Pausing and resuming empties both counters, whatever they were, and the
/// window then fills again from nothing.
pub proof fn resume_restarts_window(flow: Flow, limit: nat, count: nat)
    ensures
        flow.halted().paused,
        !flow.halted().may_advance(limit),
        flow.halted().resumed() == Flow::start(),
        flow.halted().resumed().cache_fill == 0,
        flow.halted().resumed().consumption_count == 0,
        flow.halted().resumed().snapshots(limit, count) == least(count as int, limit as int),
{
    lookahead_is_bounded(limit, count);
}

/// While the worker is paused, ticks publish nothing and change nothing.
pub proof fn paused_worker_rests(flow: Flow, limit: nat, count: nat)
    requires
        flow.paused,
    ensures
        flow.snapshots(limit, count) == 0,
        flow.ticks(limit, count) == flow,
    decreases count,
{
    if count > 0 {
        paused_worker_rests(flow, limit, (count - 1) as nat);
    }
}

} // verus!
