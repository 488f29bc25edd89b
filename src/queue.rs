//! A closable, unbounded FIFO queue of jobs.
use std::collections::VecDeque;
use vstd::prelude::*;

verus! {

/// What a worker gets when it asks the queue for work.
pub enum Retrieved<T> {
    /// The oldest pending job, now owned by the caller.
    Job(T),
    /// Nothing pending yet and the queue is still open: wait and ask again.
    Empty,
    /// The queue is closed and drained: no job will ever come.
    Closed,
}

/// Jobs in the order of submission, with a flag that shuts the submission side.
///
/// Besides the pending jobs it keeps, as ghost state, every job it accepted and
/// every job it handed out, in order.
pub struct JobQueue<T> {
    items: VecDeque<T>,
    closed: bool,
    accepted: Ghost<Seq<T>>,
    delivered: Ghost<Seq<T>>,
}

impl<T> JobQueue<T> {
    /// Jobs waiting to be retrieved, oldest first.
    pub closed spec fn pending(&self) -> Seq<T> {
        self.items@
    }

    /// Whether the submission side has been closed.
    pub closed spec fn is_closed_spec(&self) -> bool {
        self.closed
    }

    /// Every job that a submission put in, in the order they came.
    pub closed spec fn accepted(&self) -> Seq<T> {
        self.accepted@
    }

    /// Every job that a retrieval handed out, in the order they left.
    pub closed spec fn delivered(&self) -> Seq<T> {
        self.delivered@
    }

    /// The jobs handed out, followed by those still pending, are exactly the
    /// jobs accepted.
    pub closed spec fn wf(&self) -> bool {
        self.delivered@ + self.items@ == self.accepted@
    }

    /// An open, empty queue.
    pub fn new() -> (q: Self)
        ensures
            q.wf(),
            !q.is_closed_spec(),
            q.pending() == Seq::<T>::empty(),
            q.accepted() == Seq::<T>::empty(),
            q.delivered() == Seq::<T>::empty(),
    {
        let q = JobQueue {
            items: VecDeque::new(),
            closed: false,
            accepted: Ghost(Seq::empty()),
            delivered: Ghost(Seq::empty()),
        };
        proof {
            assert(q.delivered@ + q.items@ =~= q.accepted@);
        }
        q
    }

    /// Appends `job` while the queue is open; once it is closed, hands the job
    /// back untouched and leaves the queue as it was. Never blocks.
    pub fn submit(&mut self, job: T) -> (r: Result<(), T>)
        requires
            old(self).wf(),
        ensures
            final(self).wf(),
            final(self).is_closed_spec() == old(self).is_closed_spec(),
            final(self).delivered() == old(self).delivered(),
            !old(self).is_closed_spec() ==> {
                &&& r is Ok
                &&& final(self).pending() == old(self).pending().push(job)
                &&& final(self).accepted() == old(self).accepted().push(job)
            },
            old(self).is_closed_spec() ==> {
                &&& r == Err::<(), T>(job)
                &&& final(self).pending() == old(self).pending()
                &&& final(self).accepted() == old(self).accepted()
            },
    {
        if self.closed {
            return Err(job);
        }
        proof {
            self.accepted@ = self.accepted@.push(job);
            assert(self.delivered@ + self.items@.push(job) =~= self.accepted@);
        }
        self.items.push_back(job);
        Ok(())
    }

    /// Takes the oldest pending job. With nothing pending, reports `Closed`
    /// once the queue is closed and `Empty` while it is open. Jobs that were
    /// pending when the queue closed still come out, in order.
    pub fn retrieve(&mut self) -> (r: Retrieved<T>)
        requires
            old(self).wf(),
        ensures
            final(self).wf(),
            final(self).is_closed_spec() == old(self).is_closed_spec(),
            final(self).accepted() == old(self).accepted(),
            old(self).pending().len() > 0 ==> {
                &&& r == Retrieved::Job(old(self).pending()[0])
                &&& final(self).pending() == old(self).pending().drop_first()
                &&& final(self).delivered() == old(self).delivered().push(old(self).pending()[0])
            },
            old(self).pending().len() == 0 ==> {
                &&& r == (if old(self).is_closed_spec() {
                    Retrieved::<T>::Closed
                } else {
                    Retrieved::<T>::Empty
                })
                &&& final(self).pending() == old(self).pending()
                &&& final(self).delivered() == old(self).delivered()
            },
    {
        match self.items.pop_front() {
            Some(job) => {
                proof {
                    self.delivered@ = self.delivered@.push(job);
                    assert(self.delivered@ + self.items@ =~= self.accepted@) by {
                        assert(old(self).items@ =~= seq![job] + self.items@);
                        assert(old(self).delivered@ + old(self).items@ =~= self.delivered@
                            + self.items@);
                    }
                }
                Retrieved::Job(job)
            },
            None => {
                if self.closed {
                    Retrieved::Closed
                } else {
                    Retrieved::Empty
                }
            },
        }
    }

    /// Shuts the submission side. Returns whether this call was the one that
    /// shut it; closing a closed queue changes nothing.
    pub fn close(&mut self) -> (first: bool)
        requires
            old(self).wf(),
        ensures
            final(self).wf(),
            final(self).is_closed_spec(),
            first == !old(self).is_closed_spec(),
            final(self).pending() == old(self).pending(),
            final(self).accepted() == old(self).accepted(),
            final(self).delivered() == old(self).delivered(),
    {
        let first = !self.closed;
        self.closed = true;
        first
    }

    /// The number of pending jobs.
    pub fn len(&self) -> (n: usize)
        ensures
            n == self.pending().len(),
    {
        self.items.len()
    }

    /// Whether the submission side has been closed.
    pub fn is_closed(&self) -> (c: bool)
        ensures
            c == self.is_closed_spec(),
    {
        self.closed
    }
}

/// Nothing is lost or duplicated: every accepted job has been handed out or is
/// still pending, as often as it was accepted, whatever the interleaving of
/// submissions and retrievals that led here.
pub proof fn lemma_no_loss_no_duplicate<T>(q: JobQueue<T>)
    requires
        q.wf(),
    ensures
        q.delivered().to_multiset().add(q.pending().to_multiset()) =~= q.accepted().to_multiset(),
{
    vstd::seq_lib::lemma_multiset_commutative(q.delivered(), q.pending());
}

/// Jobs are handed out in the order in which they were accepted: those handed
/// out so far are the oldest accepted ones, and the next to go is the oldest
/// still pending.
pub proof fn lemma_delivered_in_submission_order<T>(q: JobQueue<T>)
    requires
        q.wf(),
    ensures
        q.delivered() =~= q.accepted().subrange(0, q.delivered().len() as int),
        q.pending() =~= q.accepted().subrange(q.delivered().len() as int, q.accepted().len() as int),
{
}

/// Once the queue has drained, each accepted job has been handed out exactly
/// once, and in the order in which it was accepted.
pub proof fn lemma_drained_delivers_all<T>(q: JobQueue<T>)
    requires
        q.wf(),
        q.pending().len() == 0,
    ensures
        q.delivered() == q.accepted(),
{
    assert(q.delivered() + q.pending() =~= q.delivered());
}

} // verus!
