//! The worker-pool execution strategy's lifecycle contract: a fixed set of
//! workers pulling from a shared queue. The threads and the queue itself are
//! an execution substrate outside this model; the lifecycle decisions — when
//! a submission is accepted, when shutdown may finish — are stated and
//! checked here. Shutdown is irreversible, and a pool terminates only once
//! every accepted job has run to completion.

use vstd::prelude::*;

verus! {

/// The pool's lifecycle phase. It only ever advances.
#[derive(Clone, Copy, Debug, PartialEq, Eq, Structural)]
pub enum PoolPhase {
    /// Created; workers not yet pulling.
    Idle,
    /// Workers pulling jobs; submissions accepted.
    Running,
    /// Shutdown signaled: no new submissions; accepted jobs still drain.
    ShuttingDown,
    /// All accepted jobs done and all workers exited.
    Terminated,
}

/// Submitting to a pool that is already shutting down is a sequencing error
/// in the caller, not a transient condition.
#[derive(Clone, Copy, Debug, PartialEq, Eq, Structural)]
pub enum SubmitError {
    SubmissionAfterShutdown,
}

/// The pool's bookkeeping: its phase, its fixed worker count, and how many
/// accepted jobs have not yet run to completion.
pub struct PoolState {
    pub phase: PoolPhase,
    /// The fixed number of workers spawned at construction.
    pub workers: usize,
    /// Jobs accepted and not yet run to completion.
    pub outstanding: usize,
}

impl PoolState {
    /// A pool has at least one worker, accepts jobs only before shutdown,
    /// and is terminated only with nothing outstanding.
    pub open spec fn wf(self) -> bool {
        &&& self.workers >= 1
        &&& self.phase == PoolPhase::Idle ==> self.outstanding == 0
        &&& self.phase == PoolPhase::Terminated ==> self.outstanding == 0
    }

    /// A pool is created with a fixed worker count and no job yet.
    pub fn new(workers: usize) -> (r: PoolState)
        requires
            workers >= 1,
        ensures
            r.wf(),
            r.phase == PoolPhase::Idle,
            r.workers == workers,
            r.outstanding == 0,
    {
        PoolState { phase: PoolPhase::Idle, workers, outstanding: 0 }
    }

    /// All workers were spawned: the pool runs and accepts jobs.
    pub fn started(&mut self)
        requires
            old(self).wf(),
            old(self).phase == PoolPhase::Idle,
        ensures
            final(self).wf(),
            final(self).phase == PoolPhase::Running,
            final(self).workers == old(self).workers,
            final(self).outstanding == old(self).outstanding,
    {
        self.phase = PoolPhase::Running;
    }

    /// One job is submitted. Accepted exactly while the pool runs; after
    /// shutdown has been signaled the submission is refused and changes
    /// nothing.
    pub fn submit(&mut self) -> (r: Result<(), SubmitError>)
        requires
            old(self).wf(),
            old(self).phase != PoolPhase::Idle,
            old(self).outstanding < usize::MAX,
        ensures
            final(self).wf(),
            old(self).phase == PoolPhase::Running ==> r == Ok::<(), SubmitError>(())
                && final(self).outstanding == old(self).outstanding + 1,
            old(self).phase != PoolPhase::Running ==> r == Err::<(), SubmitError>(
                SubmitError::SubmissionAfterShutdown,
            ) && final(self).outstanding == old(self).outstanding,
            final(self).phase == old(self).phase,
            final(self).workers == old(self).workers,
    {
        match self.phase {
            PoolPhase::Running => {
                self.outstanding = self.outstanding + 1;
                Ok(())
            },
            _ => Err(SubmitError::SubmissionAfterShutdown),
        }
    }

    /// A worker ran one accepted job to completion. A job that faulted counts
    /// too: its worker survives it and resumes pulling, so the job is done,
    /// merely failed.
    pub fn job_done(&mut self)
        requires
            old(self).wf(),
            old(self).outstanding > 0,
        ensures
            final(self).wf(),
            final(self).outstanding == old(self).outstanding - 1,
            final(self).phase == old(self).phase,
            final(self).workers == old(self).workers,
    {
        self.outstanding = self.outstanding - 1;
    }

    /// Shutdown is signaled, exactly once: no new job is accepted from here
    /// on, and the already-accepted ones keep draining.
    pub fn begin_shutdown(&mut self)
        requires
            old(self).wf(),
            old(self).phase == PoolPhase::Running,
        ensures
            final(self).wf(),
            final(self).phase == PoolPhase::ShuttingDown,
            final(self).outstanding == old(self).outstanding,
            final(self).workers == old(self).workers,
    {
        self.phase = PoolPhase::ShuttingDown;
    }

    /// The workers exited. This needs every accepted job to have run to
    /// completion first: workers are never killed mid-job.
    pub fn finish_shutdown(&mut self)
        requires
            old(self).wf(),
            old(self).phase == PoolPhase::ShuttingDown,
            old(self).outstanding == 0,
        ensures
            final(self).wf(),
            final(self).phase == PoolPhase::Terminated,
            final(self).outstanding == 0,
            final(self).workers == old(self).workers,
    {
        self.phase = PoolPhase::Terminated;
    }
}

/// Shutdown drains: a terminated pool has nothing outstanding — every job it
/// ever accepted ran to completion before the workers exited.
pub proof fn lemma_terminated_pool_drained(p: PoolState)
    requires
        p.wf(),
        p.phase == PoolPhase::Terminated,
    ensures
        p.outstanding == 0,
{
}

} // verus!
