//! Coordination bookkeeping for one run: how many work items the traverser
//! has emitted, how many sit buffered in the dispatch channel, how many are
//! executing, and how each finished one came out. The channel and the
//! executors themselves live outside; each event they produce (an item sent,
//! received, finished; the channel closed) is recorded here, and the
//! invariants tie the counts together: buffered items never exceed the
//! channel capacity (backpressure), and a complete run accounts for every
//! emitted item with exactly one result.

use vstd::prelude::*;
use crate::relocate::RelocationResult;

verus! {

/// The counters of one run. Well-formedness (`wf`) is the run's invariant:
/// every transition below preserves it.
pub struct Pipeline {
    /// The dispatch channel's capacity: the bound on buffered items.
    pub capacity: usize,
    /// Work items the traverser has emitted so far.
    pub emitted: usize,
    /// Items sent into the channel and not yet received.
    pub in_channel: usize,
    /// Items received by the execution layer and still executing.
    pub executing: usize,
    /// Finished items that were moved into their bucket.
    pub succeeded: usize,
    /// Finished items skipped for want of a usable calendar date.
    pub skipped: usize,
    /// Finished items that failed, whatever the reason.
    pub failed: usize,
    /// Whether the traverser has finished emitting (the channel is closed).
    pub closed: bool,
    /// Whether an external cancellation signal was seen: the traverser emits
    /// nothing further; already-dispatched jobs finish rather than abort.
    pub cancelled: bool,
}

impl Pipeline {
    /// Items that have their result.
    pub open spec fn finished(self) -> int {
        self.succeeded + self.skipped + self.failed
    }

    /// Every emitted item is in exactly one place: buffered, executing, or
    /// finished; and the buffer respects the channel capacity.
    pub open spec fn wf(self) -> bool {
        &&& self.capacity >= 1
        &&& self.in_channel <= self.capacity
        &&& self.emitted == self.in_channel + self.executing + self.finished()
    }

    /// The run is complete: the traverser is done and no item is still
    /// buffered or executing.
    pub open spec fn complete(self) -> bool {
        self.closed && self.in_channel == 0 && self.executing == 0
    }

    /// A run starts with nothing emitted and the channel open.
    pub fn new(capacity: usize) -> (r: Pipeline)
        requires
            capacity >= 1,
        ensures
            r.wf(),
            r.capacity == capacity,
            r.emitted == 0,
            r.in_channel == 0,
            r.executing == 0,
            r.finished() == 0,
            !r.closed,
            !r.cancelled,
    {
        Pipeline {
            capacity,
            emitted: 0,
            in_channel: 0,
            executing: 0,
            succeeded: 0,
            skipped: 0,
            failed: 0,
            closed: false,
            cancelled: false,
        }
    }

    /// Whether the traverser may emit another item now: the channel must be
    /// open, the run not cancelled, and the buffer below capacity. A full
    /// channel suspends the traverser — this is the backpressure decision.
    pub fn can_send(&self) -> (r: bool)
        ensures
            r <==> (!self.closed && !self.cancelled && self.in_channel < self.capacity),
    {
        !self.closed && !self.cancelled && self.in_channel < self.capacity
    }

    /// The traverser emitted one item into the channel.
    pub fn on_send(&mut self)
        requires
            old(self).wf(),
            !old(self).closed,
            !old(self).cancelled,
            old(self).in_channel < old(self).capacity,
            old(self).emitted < usize::MAX,
        ensures
            final(self).wf(),
            final(self).emitted == old(self).emitted + 1,
            final(self).in_channel == old(self).in_channel + 1,
            final(self).executing == old(self).executing,
            final(self).succeeded == old(self).succeeded,
            final(self).skipped == old(self).skipped,
            final(self).failed == old(self).failed,
            final(self).capacity == old(self).capacity,
            final(self).closed == old(self).closed,
            final(self).cancelled == old(self).cancelled,
    {
        self.emitted = self.emitted + 1;
        self.in_channel = self.in_channel + 1;
    }

    /// The execution layer received one buffered item and began executing it.
    pub fn on_receive(&mut self)
        requires
            old(self).wf(),
            old(self).in_channel > 0,
        ensures
            final(self).wf(),
            final(self).in_channel == old(self).in_channel - 1,
            final(self).executing == old(self).executing + 1,
            final(self).emitted == old(self).emitted,
            final(self).succeeded == old(self).succeeded,
            final(self).skipped == old(self).skipped,
            final(self).failed == old(self).failed,
            final(self).capacity == old(self).capacity,
            final(self).closed == old(self).closed,
            final(self).cancelled == old(self).cancelled,
    {
        self.in_channel = self.in_channel - 1;
        self.executing = self.executing + 1;
    }

    /// One executing item finished with `result`; exactly the matching
    /// counter grows. A failure is recorded like any other outcome — it
    /// neither stops the run nor goes unaccounted.
    pub fn on_result(&mut self, result: &RelocationResult)
        requires
            old(self).wf(),
            old(self).executing > 0,
        ensures
            final(self).wf(),
            final(self).executing == old(self).executing - 1,
            final(self).finished() == old(self).finished() + 1,
            *result == RelocationResult::Success ==> final(self).succeeded == old(self).succeeded
                + 1 && final(self).skipped == old(self).skipped
                && final(self).failed == old(self).failed,
            *result == RelocationResult::SkippedUndatable ==> final(self).skipped
                == old(self).skipped + 1 && final(self).succeeded == old(self).succeeded
                && final(self).failed == old(self).failed,
            (result matches RelocationResult::Failed(_)) ==> final(self).failed == old(self).failed
                + 1 && final(self).succeeded == old(self).succeeded
                && final(self).skipped == old(self).skipped,
            final(self).emitted == old(self).emitted,
            final(self).in_channel == old(self).in_channel,
            final(self).capacity == old(self).capacity,
            final(self).closed == old(self).closed,
            final(self).cancelled == old(self).cancelled,
    {
        self.executing = self.executing - 1;
        match result {
            RelocationResult::Success => {
                self.succeeded = self.succeeded + 1;
            },
            RelocationResult::SkippedUndatable => {
                self.skipped = self.skipped + 1;
            },
            RelocationResult::Failed(_) => {
                self.failed = self.failed + 1;
            },
        }
    }

    /// The traverser finished emitting: the channel is closed. Buffered and
    /// executing items drain as before; nothing new is accepted.
    pub fn on_close(&mut self)
        requires
            old(self).wf(),
        ensures
            final(self).wf(),
            final(self).closed,
            final(self).emitted == old(self).emitted,
            final(self).in_channel == old(self).in_channel,
            final(self).executing == old(self).executing,
            final(self).succeeded == old(self).succeeded,
            final(self).skipped == old(self).skipped,
            final(self).failed == old(self).failed,
            final(self).capacity == old(self).capacity,
            final(self).cancelled == old(self).cancelled,
    {
        self.closed = true;
    }

    /// An external cancellation signal: the traverser emits nothing further
    /// (`can_send` turns false), while already-dispatched jobs finish rather
    /// than abort mid-rename.
    pub fn on_cancel(&mut self)
        requires
            old(self).wf(),
        ensures
            final(self).wf(),
            final(self).cancelled,
            final(self).emitted == old(self).emitted,
            final(self).in_channel == old(self).in_channel,
            final(self).executing == old(self).executing,
            final(self).succeeded == old(self).succeeded,
            final(self).skipped == old(self).skipped,
            final(self).failed == old(self).failed,
            final(self).capacity == old(self).capacity,
            final(self).closed == old(self).closed,
    {
        self.cancelled = true;
    }

    /// How many emitted items were never processed — what a cancelled run
    /// reports once its dispatched jobs have finished.
    pub fn unprocessed(&self) -> (r: usize)
        ensures
            r == self.in_channel,
            self.wf() && self.executing == 0 ==> r + self.finished() == self.emitted,
    {
        self.in_channel
    }

    /// Whether the run is complete: the traverser is done and every
    /// dispatched item has its result.
    pub fn is_complete(&self) -> (r: bool)
        ensures
            r <==> self.complete(),
    {
        self.closed && self.in_channel == 0 && self.executing == 0
    }
}

/// Completeness: a complete run accounts for every emitted work item —
/// successes, skips and failures together equal the emitted count, so no
/// item vanished and none was counted twice.
pub proof fn lemma_complete_run_accounts_for_every_item(p: Pipeline)
    requires
        p.wf(),
        p.complete(),
    ensures
        p.succeeded + p.skipped + p.failed == p.emitted,
{
}

/// Backpressure: in every well-formed pipeline state — and each transition
/// above keeps the state well-formed — the buffered, not yet dispatched
/// items never exceed the channel capacity.
pub proof fn lemma_backpressure(p: Pipeline)
    requires
        p.wf(),
    ensures
        p.in_channel <= p.capacity,
{
}

} // verus!
