//! The lifecycle of a pool and of each of its workers.
use crate::queue::{JobQueue, Retrieved};
use vstd::prelude::*;

verus! {

/// Where one worker stands. A worker is `Idle` or `Busy` while its thread runs.
#[derive(PartialEq, Eq, Structural, Clone, Copy, Debug)]
pub enum Phase {
    /// Waiting for a job.
    Idle,
    /// Executing one job.
    Busy,
    /// Saw the closed queue and left its loop.
    Stopped,
    /// Its thread ended after stopping, and was joined.
    Joined,
    /// Its thread ended some other way (a job failed), and was joined.
    Lost,
}

/// Where the whole pool stands.
#[derive(PartialEq, Eq, Structural, Clone, Copy, Debug)]
pub enum Lifecycle {
    /// Taking jobs.
    Active,
    /// The queue is closed; workers drain it and are joined one by one.
    ShuttingDown,
    /// Every worker thread has been joined.
    Terminated,
}

/// What a worker does next.
pub enum Action<T> {
    /// Execute this job, then report back with `finish_job`.
    Run(T),
    /// Nothing to do yet: wait for a submission or for shutdown.
    Wait,
    /// The queue is closed and drained: leave the loop.
    Exit,
}

/// How the join of a worker's thread went.
#[derive(PartialEq, Eq, Structural, Clone, Copy, Debug)]
pub enum JoinReport {
    /// The worker had stopped and its thread ended normally.
    Clean,
    /// The thread ended without the worker stopping: its capacity was lost.
    Faulted,
}

/// The phase of a worker whose thread is running.
pub open spec fn is_live(p: Phase) -> bool {
    p == Phase::Idle || p == Phase::Busy
}

/// The phase of a worker whose thread has been joined.
pub open spec fn is_finished(p: Phase) -> bool {
    p == Phase::Joined || p == Phase::Lost
}

/// How many of the phases are those of a running worker.
pub open spec fn live_count(s: Seq<Phase>) -> nat
    decreases s.len(),
{
    if s.len() == 0 {
        0
    } else {
        live_count(s.drop_last()) + if is_live(s.last()) {
            1nat
        } else {
            0nat
        }
    }
}

/// The lifecycle that the queue's state and the workers' phases amount to.
pub open spec fn lifecycle_of(closed: bool, s: Seq<Phase>) -> Lifecycle {
    if !closed {
        Lifecycle::Active
    } else if forall|i: int| 0 <= i < s.len() ==> is_finished(#[trigger] s[i]) {
        Lifecycle::Terminated
    } else {
        Lifecycle::ShuttingDown
    }
}

/// The shared state of a pool: the job queue, and one phase per worker, the
/// worker's identity being its index.
pub struct PoolState<T> {
    queue: JobQueue<T>,
    phases: Vec<Phase>,
}

impl<T> PoolState<T> {
    /// The job queue that submitters and workers share.
    pub closed spec fn queue_spec(&self) -> JobQueue<T> {
        self.queue
    }

    /// The phase of each worker, by identity.
    pub closed spec fn phases_spec(&self) -> Seq<Phase> {
        self.phases@
    }

    /// The number of workers.
    pub open spec fn size_spec(&self) -> nat {
        self.phases_spec().len()
    }

    /// Where the pool stands.
    pub open spec fn lifecycle_spec(&self) -> Lifecycle {
        lifecycle_of(self.queue_spec().is_closed_spec(), self.phases_spec())
    }

    /// The pool is never empty, its queue is consistent, and while it takes
    /// jobs every worker is running.
    pub open spec fn wf(&self) -> bool {
        &&& self.queue_spec().wf()
        &&& self.size_spec() > 0
        &&& !self.queue_spec().is_closed_spec() ==> forall|i: int|
            0 <= i < self.size_spec() ==> is_live(#[trigger] self.phases_spec()[i])
    }

    /// A pool of `size` idle workers, with identities `0..size`, and an open,
    /// empty queue. A pool of no workers cannot exist: a caller that might
    /// ask for one must stop before this call.
    pub fn new(size: usize) -> (p: PoolState<T>)
        requires
            size > 0,
        ensures
            p.wf(),
            p.size_spec() == size,
            live_count(p.phases_spec()) == size,
            forall|i: int| 0 <= i < size ==> #[trigger] p.phases_spec()[i] == Phase::Idle,
            p.lifecycle_spec() == Lifecycle::Active,
            p.queue_spec().pending() == Seq::<T>::empty(),
            p.queue_spec().accepted() == Seq::<T>::empty(),
            p.queue_spec().delivered() == Seq::<T>::empty(),
    {
        let mut phases: Vec<Phase> = Vec::with_capacity(size);
        let mut id: usize = 0;
        while id < size
            invariant
                id <= size,
                phases@.len() == id,
                forall|i: int| 0 <= i < id ==> #[trigger] phases@[i] == Phase::Idle,
                live_count(phases@) == id,
            decreases size - id,
        {
            proof {
                assert(phases@.push(Phase::Idle).drop_last() =~= phases@);
            }
            phases.push(Phase::Idle);
            id = id + 1;
        }
        PoolState { queue: JobQueue::new(), phases }
    }

    /// The number of workers, fixed at construction.
    pub fn size(&self) -> (n: usize)
        ensures
            n == self.size_spec(),
    {
        self.phases.len()
    }

    /// The number of workers whose thread is running (idle or busy).
    pub fn live_workers(&self) -> (n: usize)
        ensures
            n == live_count(self.phases_spec()),
    {
        let mut n: usize = 0;
        let mut i: usize = 0;
        while i < self.phases.len()
            invariant
                i <= self.phases@.len(),
                n == live_count(self.phases@.subrange(0, i as int)),
                n <= i,
            decreases self.phases@.len() - i,
        {
            proof {
                assert(self.phases@.subrange(0, i + 1).drop_last() =~= self.phases@.subrange(
                    0,
                    i as int,
                ));
            }
            if self.phases[i] == Phase::Idle || self.phases[i] == Phase::Busy {
                n = n + 1;
            }
            i = i + 1;
        }
        proof {
            assert(self.phases@.subrange(0, i as int) =~= self.phases@);
        }
        n
    }

    /// The phase of worker `id`.
    pub fn phase(&self, id: usize) -> (p: Phase)
        requires
            id < self.size_spec(),
        ensures
            p == self.phases_spec()[id as int],
    {
        self.phases[id]
    }

    /// The number of jobs submitted and not yet taken by a worker.
    pub fn pending_jobs(&self) -> (n: usize)
        ensures
            n == self.queue_spec().pending().len(),
    {
        self.queue.len()
    }

    /// Where the pool stands.
    pub fn lifecycle(&self) -> (l: Lifecycle)
        ensures
            l == self.lifecycle_spec(),
    {
        if !self.queue.is_closed() {
            return Lifecycle::Active;
        }
        let mut i: usize = 0;
        while i < self.phases.len()
            invariant
                i <= self.phases@.len(),
                self.queue_spec().is_closed_spec(),
                forall|j: int| 0 <= j < i ==> is_finished(#[trigger] self.phases@[j]),
            decreases self.phases@.len() - i,
        {
            if !(self.phases[i] == Phase::Joined || self.phases[i] == Phase::Lost) {
                assert(!is_finished(self.phases_spec()[i as int]));
                return Lifecycle::ShuttingDown;
            }
            i = i + 1;
        }
        Lifecycle::Terminated
    }

    /// Hands `job` to the queue while the pool is active. Once shutdown has
    /// begun the job is handed back, unexecuted, and nothing changes.
    pub fn submit(&mut self, job: T) -> (r: Result<(), T>)
        requires
            old(self).wf(),
        ensures
            final(self).wf(),
            final(self).phases_spec() == old(self).phases_spec(),
            final(self).queue_spec().is_closed_spec() == old(self).queue_spec().is_closed_spec(),
            final(self).queue_spec().delivered() == old(self).queue_spec().delivered(),
            old(self).lifecycle_spec() == Lifecycle::Active ==> {
                &&& r is Ok
                &&& final(self).queue_spec().pending() == old(self).queue_spec().pending().push(
                    job,
                )
                &&& final(self).queue_spec().accepted() == old(
                    self,
                ).queue_spec().accepted().push(job)
            },
            old(self).lifecycle_spec() != Lifecycle::Active ==> {
                &&& r == Err::<(), T>(job)
                &&& final(self).queue_spec().pending() == old(self).queue_spec().pending()
                &&& final(self).queue_spec().accepted() == old(self).queue_spec().accepted()
            },
    {
        self.queue.submit(job)
    }

    /// The step of worker `id`, which is idle: take the oldest pending job and
    /// become busy; with nothing pending, wait while the pool is active, and
    /// stop once it is shutting down.
    pub fn next_action(&mut self, id: usize) -> (r: Action<T>)
        requires
            old(self).wf(),
            id < old(self).size_spec(),
            old(self).phases_spec()[id as int] == Phase::Idle,
        ensures
            final(self).wf(),
            final(self).queue_spec().is_closed_spec() == old(self).queue_spec().is_closed_spec(),
            final(self).queue_spec().accepted() == old(self).queue_spec().accepted(),
            old(self).queue_spec().pending().len() > 0 ==> {
                &&& r == Action::Run(old(self).queue_spec().pending()[0])
                &&& final(self).phases_spec() == old(self).phases_spec().update(
                    id as int,
                    Phase::Busy,
                )
                &&& final(self).queue_spec().pending() == old(
                    self,
                ).queue_spec().pending().drop_first()
                &&& final(self).queue_spec().delivered() == old(
                    self,
                ).queue_spec().delivered().push(old(self).queue_spec().pending()[0])
            },
            old(self).queue_spec().pending().len() == 0 ==> {
                &&& final(self).queue_spec().pending() == old(self).queue_spec().pending()
                &&& final(self).queue_spec().delivered() == old(self).queue_spec().delivered()
            },
            old(self).queue_spec().pending().len() == 0 && !old(
                self,
            ).queue_spec().is_closed_spec() ==> {
                &&& r == Action::<T>::Wait
                &&& final(self).phases_spec() == old(self).phases_spec()
            },
            old(self).queue_spec().pending().len() == 0 && old(
                self,
            ).queue_spec().is_closed_spec() ==> {
                &&& r == Action::<T>::Exit
                &&& final(self).phases_spec() == old(self).phases_spec().update(
                    id as int,
                    Phase::Stopped,
                )
            },
    {
        match self.queue.retrieve() {
            Retrieved::Job(job) => {
                self.phases.set(id, Phase::Busy);
                Action::Run(job)
            },
            Retrieved::Empty => Action::Wait,
            Retrieved::Closed => {
                self.phases.set(id, Phase::Stopped);
                Action::Exit
            },
        }
    }

    /// Worker `id` has finished its job and is idle again.
    pub fn finish_job(&mut self, id: usize)
        requires
            old(self).wf(),
            id < old(self).size_spec(),
            old(self).phases_spec()[id as int] == Phase::Busy,
        ensures
            final(self).wf(),
            final(self).phases_spec() == old(self).phases_spec().update(id as int, Phase::Idle),
            final(self).queue_spec() == old(self).queue_spec(),
    {
        self.phases.set(id, Phase::Idle);
    }

    /// Begins shutdown by closing the queue. Returns whether this call was the
    /// one that closed it; later calls change nothing. Jobs already pending
    /// stay, for the workers to drain.
    pub fn shutdown(&mut self) -> (first: bool)
        requires
            old(self).wf(),
        ensures
            final(self).wf(),
            first == (old(self).lifecycle_spec() == Lifecycle::Active),
            final(self).lifecycle_spec() != Lifecycle::Active,
            final(self).phases_spec() == old(self).phases_spec(),
            final(self).queue_spec().pending() == old(self).queue_spec().pending(),
            final(self).queue_spec().accepted() == old(self).queue_spec().accepted(),
            final(self).queue_spec().delivered() == old(self).queue_spec().delivered(),
    {
        self.queue.close()
    }

    /// The lowest identity of a worker that has not been joined yet, if any:
    /// workers are joined in identity order.
    pub fn next_to_join(&self) -> (r: Option<usize>)
        ensures
            r matches Some(id) ==> {
                &&& id < self.size_spec()
                &&& !is_finished(self.phases_spec()[id as int])
                &&& forall|j: int| 0 <= j < id ==> is_finished(#[trigger] self.phases_spec()[j])
            },
            r is None ==> forall|j: int|
                0 <= j < self.size_spec() ==> is_finished(#[trigger] self.phases_spec()[j]),
    {
        let mut i: usize = 0;
        while i < self.phases.len()
            invariant
                i <= self.phases@.len(),
                forall|j: int| 0 <= j < i ==> is_finished(#[trigger] self.phases@[j]),
            decreases self.phases@.len() - i,
        {
            if !(self.phases[i] == Phase::Joined || self.phases[i] == Phase::Lost) {
                return Some(i);
            }
            i = i + 1;
        }
        None
    }

    /// Records that the thread of worker `id` was joined during shutdown,
    /// `clean` telling whether it ended normally. A worker that had stopped and
    /// ended normally is `Joined`; any other end is reported as a fault and the
    /// worker is `Lost`.
    pub fn record_joined(&mut self, id: usize, clean: bool) -> (r: JoinReport)
        requires
            old(self).wf(),
            old(self).lifecycle_spec() != Lifecycle::Active,
            id < old(self).size_spec(),
            !is_finished(old(self).phases_spec()[id as int]),
        ensures
            final(self).wf(),
            final(self).queue_spec() == old(self).queue_spec(),
            clean && old(self).phases_spec()[id as int] == Phase::Stopped ==> {
                &&& r == JoinReport::Clean
                &&& final(self).phases_spec() == old(self).phases_spec().update(
                    id as int,
                    Phase::Joined,
                )
            },
            !(clean && old(self).phases_spec()[id as int] == Phase::Stopped) ==> {
                &&& r == JoinReport::Faulted
                &&& final(self).phases_spec() == old(self).phases_spec().update(
                    id as int,
                    Phase::Lost,
                )
            },
    {
        if clean && self.phases[id] == Phase::Stopped {
            self.phases.set(id, Phase::Joined);
            JoinReport::Clean
        } else {
            self.phases.set(id, Phase::Lost);
            JoinReport::Faulted
        }
    }
}

/// A terminated pool has no running worker: each thread has been joined, so
/// no job is still in flight.
pub proof fn lemma_terminated_nothing_in_flight<T>(p: PoolState<T>)
    requires
        p.wf(),
        p.lifecycle_spec() == Lifecycle::Terminated,
    ensures
        forall|i: int| 0 <= i < p.size_spec() ==> #[trigger] p.phases_spec()[i] != Phase::Busy,
        live_count(p.phases_spec()) == 0,
{
    lemma_live_count_none(p.phases_spec());
}

proof fn lemma_live_count_none(s: Seq<Phase>)
    requires
        forall|i: int| 0 <= i < s.len() ==> is_finished(#[trigger] s[i]),
    ensures
        live_count(s) == 0,
    decreases s.len(),
{
    if s.len() > 0 {
        assert(is_finished(s[s.len() - 1]));
        lemma_live_count_none(s.drop_last());
    }
}

} // verus!
