//! The shared job queue of the worker pool. Workers take jobs first come,
//! first served; once the queue is closed, it still hands out what it holds
//! and only then tells workers to exit.
use vstd::prelude::*;

use std::collections::VecDeque;

verus! {

/// What a worker gets when it asks the queue for work.
pub enum Next<J> {
    /// A job to run.
    Run(J),
    /// Nothing yet: wait for a job or for shutdown.
    Wait,
    /// The queue is closed and empty: stop.
    Exit,
}

/// A first-in, first-out queue of jobs that can be closed.
pub struct JobQueue<J> {
    jobs: VecDeque<J>,
    closed: bool,
}

/// A queue as the jobs it holds, oldest first, and whether it is closed.
pub type QueueModel<J> = (Seq<J>, bool);

/// A new, open, empty queue.
pub open spec fn empty_model<J>() -> QueueModel<J> {
    (Seq::empty(), false)
}

/// Submitting a job: an open queue keeps it at the back; a closed one
/// refuses it.
pub open spec fn push_model<J>(q: QueueModel<J>, job: J) -> QueueModel<J> {
    if q.1 {
        q
    } else {
        (q.0.push(job), q.1)
    }
}

/// Submitting jobs one after another.
pub open spec fn push_all<J>(q: QueueModel<J>, jobs: Seq<J>) -> QueueModel<J>
    decreases jobs.len(),
{
    if jobs.len() == 0 {
        q
    } else {
        push_model(push_all(q, jobs.drop_last()), jobs.last())
    }
}

/// Closing the queue: no new jobs, the held ones stay.
pub open spec fn close_model<J>(q: QueueModel<J>) -> QueueModel<J> {
    (q.0, true)
}

/// One request for work: the oldest job if there is one, else exit when
/// closed, else wait.
pub open spec fn step<J>(q: QueueModel<J>) -> (Next<J>, QueueModel<J>) {
    if q.0.len() > 0 {
        (Next::Run(q.0[0]), (q.0.drop_first(), q.1))
    } else if q.1 {
        (Next::Exit, q)
    } else {
        (Next::Wait, q)
    }
}

/// What `k` successive requests for work get.
pub open spec fn run_steps<J>(q: QueueModel<J>, k: nat) -> Seq<Next<J>>
    decreases k,
{
    if k == 0 {
        Seq::empty()
    } else {
        seq![step(q).0] + run_steps(step(q).1, (k - 1) as nat)
    }
}

impl<J> JobQueue<J> {
    /// The queue's contents and whether it is closed.
    pub closed spec fn model(&self) -> QueueModel<J> {
        (self.jobs@, self.closed)
    }

    pub fn new() -> (r: JobQueue<J>)
        ensures
            r.model() == empty_model::<J>(),
    {
        JobQueue { jobs: VecDeque::new(), closed: false }
    }

    /// Submits a job; a closed queue hands it back.
    pub fn push(&mut self, job: J) -> (r: Result<(), J>)
        ensures
            final(self).model() == push_model(old(self).model(), job),
            old(self).model().1 <==> r is Err,
            r matches Err(j) ==> j == job,
    {
        if self.closed {
            return Err(job);
        }
        self.jobs.push_back(job);
        Ok(())
    }

    /// Closes the queue to new jobs.
    pub fn close(&mut self)
        ensures
            final(self).model() == close_model(old(self).model()),
    {
        self.closed = true;
    }

    pub fn is_closed(&self) -> (r: bool)
        ensures
            r == self.model().1,
    {
        self.closed
    }

    /// The number of jobs waiting.
    pub fn len(&self) -> (r: usize)
        ensures
            r == self.model().0.len(),
    {
        self.jobs.len()
    }

    /// A worker's request for work.
    pub fn next(&mut self) -> (r: Next<J>)
        ensures
            (r, final(self).model()) == step(old(self).model()),
    {
        match self.jobs.pop_front() {
            Some(job) => Next::Run(job),
            None => {
                if self.closed {
                    Next::Exit
                } else {
                    Next::Wait
                }
            },
        }
    }
}

/// Submitting to an open queue appends the jobs in order.
pub proof fn lemma_push_all_open<J>(q: Seq<J>, jobs: Seq<J>)
    ensures
        push_all((q, false), jobs) == (q + jobs, false),
    decreases jobs.len(),
{
    if jobs.len() > 0 {
        lemma_push_all_open(q, jobs.drop_last());
        assert(q + jobs.drop_last() + seq![jobs.last()] =~= q + jobs);
    } else {
        assert(q + jobs =~= q);
    }
}

proof fn lemma_closed_drain<J>(held: Seq<J>)
    ensures
        run_steps((held, true), held.len() + 1) == held.map_values(|j: J| Next::Run(j)).push(
            Next::<J>::Exit,
        ),
    decreases held.len(),
{
    if held.len() == 0 {
        assert(run_steps((held, true), 0) == Seq::<Next<J>>::empty());
        assert(held.map_values(|j: J| Next::Run(j)).push(Next::<J>::Exit) =~= seq![Next::<J>::Exit]);
    } else {
        let rest = held.drop_first();
        lemma_closed_drain(rest);
        assert(step((held, true)) == (Next::Run(held[0]), (rest, true)));
        assert(held.map_values(|j: J| Next::Run(j)).push(Next::<J>::Exit) =~= seq![Next::Run(held[0])]
            + rest.map_values(|j: J| Next::Run(j)).push(Next::<J>::Exit));
    }
}

/// Shutdown drops no job: every job submitted to a new queue before it is
/// closed is handed to exactly one worker request, in submission order, and
/// only after the last of them are workers told to exit.
pub proof fn lemma_every_job_runs_once<J>(jobs: Seq<J>)
    ensures
        run_steps(close_model(push_all(empty_model::<J>(), jobs)), jobs.len() + 1)
            == jobs.map_values(|j: J| Next::Run(j)).push(Next::<J>::Exit),
{
    lemma_push_all_open(Seq::<J>::empty(), jobs);
    assert(Seq::<J>::empty() + jobs =~= jobs);
    lemma_closed_drain(jobs);
}

/// Once a closed queue is empty, every further request is told to exit.
pub proof fn lemma_exit_is_final<J>(q: QueueModel<J>, k: nat)
    requires
        q.0.len() == 0,
        q.1,
    ensures
        forall|i: int| 0 <= i < k ==> #[trigger] run_steps(q, k)[i] == Next::<J>::Exit,
        run_steps(q, k).len() == k,
    decreases k,
{
    if k > 0 {
        lemma_exit_is_final(q, (k - 1) as nat);
        assert(step(q) == (Next::<J>::Exit, q));
        assert forall|i: int| 0 <= i < k implies #[trigger] run_steps(q, k)[i] == Next::<J>::Exit by {
            if i > 0 {
                assert(run_steps(q, k)[i] == run_steps(q, (k - 1) as nat)[i - 1]);
            }
        }
    }
}

} // verus!
