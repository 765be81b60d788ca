//! One flush cycle: the stages of its transaction, and the flusher that lets
//! only one cycle run at a time.

use vstd::prelude::*;
use crate::flush::{first_seen, has_nickname, prepare_flush, batch_text};
use crate::model::QueueEventView;
use crate::queue::IngestionQueue;

verus! {

/// The seconds between two ticks of the flusher.
pub const FLUSH_INTERVAL_SECS: u64 = 2;

/// The stages of applying one batch, in order.
#[derive(Clone, Copy, Debug, PartialEq, Eq, Structural)]
pub enum FlushStage {
    /// Borrow a connection to the store.
    Acquire,
    /// Open the transaction.
    Begin,
    /// Run the batch inside it.
    Execute,
    /// Commit it.
    Commit,
}

/// What follows a stage.
#[derive(Clone, Copy, Debug, PartialEq, Eq, Structural)]
pub enum FlushStep {
    /// Go on with this stage.
    Continue(FlushStage),
    /// The batch is durable.
    Applied,
    /// The batch is discarded; nothing of it reached the store.
    Dropped,
}

/// A failed stage drops the batch; a successful one leads to the next stage,
/// and the commit to the end.
pub open spec fn after_stage(stage: FlushStage, ok: bool) -> FlushStep {
    if !ok {
        FlushStep::Dropped
    } else {
        match stage {
            FlushStage::Acquire => FlushStep::Continue(FlushStage::Begin),
            FlushStage::Begin => FlushStep::Continue(FlushStage::Execute),
            FlushStage::Execute => FlushStep::Continue(FlushStage::Commit),
            FlushStage::Commit => FlushStep::Applied,
        }
    }
}

/// Whether a cycle whose stages succeed or fail as given applies its batch. A
/// stage after a failed one is never run, so its flag is not read.
pub open spec fn cycle_applies(acquired: bool, begun: bool, executed: bool, committed: bool) -> bool {
    match after_stage(FlushStage::Acquire, acquired) {
        FlushStep::Continue(second) => match after_stage(second, begun) {
            FlushStep::Continue(third) => match after_stage(third, executed) {
                FlushStep::Continue(fourth) => after_stage(fourth, committed) == FlushStep::Applied,
                step => step == FlushStep::Applied,
            },
            step => step == FlushStep::Applied,
        },
        step => step == FlushStep::Applied,
    }
}

/// The store after the rows were inserted in order, each row skipped where
/// the store already holds its nickname.
pub open spec fn insert_ignoring_conflicts(store: Seq<QueueEventView>, rows: Seq<QueueEventView>) -> Seq<
    QueueEventView,
>
    decreases rows.len(),
{
    if rows.len() == 0 {
        store
    } else {
        let before = insert_ignoring_conflicts(store, rows.drop_last());
        if has_nickname(before, rows.last().payload.nickname) {
            before
        } else {
            before.push(rows.last())
        }
    }
}

/// The store after a cycle over `batch`: the deduplicated batch is inserted
/// if the cycle applied, and nothing changes if it did not.
pub open spec fn store_after_cycle(store: Seq<QueueEventView>, batch: Seq<QueueEventView>, applied: bool) -> Seq<
    QueueEventView,
> {
    if applied {
        insert_ignoring_conflicts(store, first_seen(batch))
    } else {
        store
    }
}

/// The background flusher. While a cycle is in flight, ticks are skipped and
/// their events wait in the queue for the next cycle.
#[derive(Debug)]
pub struct Flusher {
    pub in_flight: bool,
}

impl Flusher {
    /// Whether a tick over the queued events starts a cycle: none is in
    /// flight and something is queued.
    pub open spec fn starts_cycle(self, queued: Seq<QueueEventView>) -> bool {
        !self.in_flight && queued.len() > 0
    }

    /// The flusher once the stage `stage` of its cycle has succeeded or
    /// failed: the cycle stays in flight only while a stage follows.
    pub open spec fn after(self, stage: FlushStage, ok: bool) -> Flusher {
        Flusher { in_flight: self.in_flight && after_stage(stage, ok) is Continue }
    }

    /// A flusher with no cycle in flight.
    pub fn new() -> (f: Flusher)
        ensures
            !f.in_flight,
    {
        Flusher { in_flight: false }
    }

    /// One tick. With a cycle in flight, or with an empty queue, nothing is
    /// handed out and nothing changes. Otherwise the queue is drained, a cycle
    /// starts, and the text that applies the deduplicated batch is returned.
    pub fn tick(&mut self, queue: &mut IngestionQueue) -> (out: Option<String>)
        ensures
            match out {
                None => !old(self).starts_cycle(old(queue)@) && final(queue)@ == old(queue)@
                    && final(self).in_flight == old(self).in_flight,
                Some(text) => old(self).starts_cycle(old(queue)@) && text@ == batch_text(
                    first_seen(old(queue)@),
                ) && final(queue)@ == Seq::<QueueEventView>::empty() && final(self).in_flight,
            },
    {
        if self.in_flight {
            return None;
        }
        let out = prepare_flush(queue);
        if out.is_some() {
            self.in_flight = true;
        } else {
            proof {
                assert(queue@ =~= old(queue)@);
            }
        }
        out
    }

    /// Records how a stage of the cycle in flight went. The cycle ends, and
    /// the next tick may start another, as soon as a stage fails or the
    /// commit succeeds.
    pub fn stage_done(&mut self, stage: FlushStage, ok: bool) -> (step: FlushStep)
        ensures
            step == after_stage(stage, ok),
            *final(self) == old(self).after(stage, ok),
    {
        let step = advance(stage, ok);
        match step {
            FlushStep::Continue(_) => {},
            _ => {
                self.in_flight = false;
            },
        }
        step
    }
}

/// What follows the stage `stage`, given whether it succeeded.
pub fn advance(stage: FlushStage, ok: bool) -> (step: FlushStep)
    ensures
        step == after_stage(stage, ok),
{
    if !ok {
        return FlushStep::Dropped;
    }
    match stage {
        FlushStage::Acquire => FlushStep::Continue(FlushStage::Begin),
        FlushStage::Begin => FlushStep::Continue(FlushStage::Execute),
        FlushStage::Execute => FlushStep::Continue(FlushStage::Commit),
        FlushStage::Commit => FlushStep::Applied,
    }
}

/// A cycle applies its batch exactly when all four stages succeed.
pub proof fn law_cycle_applies_iff_all_succeed(
    acquired: bool,
    begun: bool,
    executed: bool,
    committed: bool,
)
    ensures
        cycle_applies(acquired, begun, executed, committed) == (acquired && begun && executed
            && committed),
{
}

/// A cycle in which any stage fails leaves the store as it was, whatever the
/// batch held.
pub proof fn law_failed_cycle_leaves_store(
    store: Seq<QueueEventView>,
    batch: Seq<QueueEventView>,
    acquired: bool,
    begun: bool,
    executed: bool,
    committed: bool,
)
    requires
        !(acquired && begun && executed && committed),
    ensures
        store_after_cycle(store, batch, cycle_applies(acquired, begun, executed, committed))
            == store,
{
}

/// After a failed stage no later stage is asked for, the cycle is over, and
/// the next tick that finds something queued starts a new cycle.
pub proof fn law_failed_stage_frees_flusher(
    flusher: Flusher,
    stage: FlushStage,
    queued: Seq<QueueEventView>,
)
    requires
        queued.len() > 0,
    ensures
        after_stage(stage, false) == FlushStep::Dropped,
        !flusher.after(stage, false).in_flight,
        flusher.after(stage, false).starts_cycle(queued),
{
}

/// A cycle ends only by a failed stage or a successful commit; until then
/// every tick is skipped.
pub proof fn law_cycle_in_flight_skips_ticks(
    flusher: Flusher,
    stage: FlushStage,
    queued: Seq<QueueEventView>,
)
    requires
        flusher.in_flight,
        stage != FlushStage::Commit,
    ensures
        !flusher.starts_cycle(queued),
        !flusher.after(stage, true).starts_cycle(queued),
        !flusher.after(FlushStage::Commit, true).in_flight,
{
}

} // verus!
