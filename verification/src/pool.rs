//! The worker pool's task discipline, modeled as an explicit state machine
//! over opaque job values: which jobs have been accepted, in what order they
//! are handed to workers, and what resizing and shutting down guarantee about
//! work already accepted. The operating-system threads that realize each
//! worker live outside the library; they drive this model one step at a time,
//! and every accepted job is delivered to exactly one worker.
//!
//! Delivery is first-in first-out for jobs submitted by one producer; the
//! interleaving of several producers is decided by whoever serializes access
//! to the pool.

use vstd::prelude::*;

verus! {

/// A pool of workers draining a shared task queue.
///
/// `queued` holds the accepted jobs no worker has taken yet, oldest first;
/// `completed` holds the jobs that have run, in completion order.
pub struct ThreadPool<J> {
    /// How many workers serve the queue.
    pub workers: usize,
    /// Accepted jobs not yet taken by any worker, oldest first.
    pub queued: Vec<J>,
    /// Jobs that have run to completion, in completion order.
    pub completed: Vec<J>,
}

/// The pool as the state machine sees it.
pub struct PoolModel<J> {
    /// How many workers serve the queue.
    pub workers: nat,
    /// Accepted jobs not yet taken by any worker, oldest first.
    pub queued: Seq<J>,
    /// Jobs that have run to completion, in completion order.
    pub completed: Seq<J>,
}

impl<J> View for ThreadPool<J> {
    type V = PoolModel<J>;

    open spec fn view(&self) -> PoolModel<J> {
        PoolModel { workers: self.workers as nat, queued: self.queued@, completed: self.completed@ }
    }
}

/// Every job the pool has ever accepted and not lost: finished work first,
/// then the still-queued tail.
pub open spec fn accepted_jobs<J>(p: PoolModel<J>) -> Seq<J> {
    p.completed + p.queued
}

/// What submitting one job leaves behind.
pub open spec fn pool_after_execute<J>(p: PoolModel<J>, job: J) -> PoolModel<J> {
    PoolModel { queued: p.queued.push(job), ..p }
}

/// What a graceful shutdown leaves behind: termination markers are injected
/// as additional jobs, so everything already queued runs first, then every
/// worker is joined.
pub open spec fn pool_after_shutdown<J>(p: PoolModel<J>) -> PoolModel<J> {
    PoolModel { workers: 0, queued: Seq::<J>::empty(), completed: p.completed + p.queued }
}

/// What resizing leaves behind: the old workers drain the whole queue before
/// they are joined, then a fresh set of workers is spawned.
pub open spec fn pool_after_set_size<J>(p: PoolModel<J>, size: nat) -> PoolModel<J> {
    PoolModel { workers: size, queued: Seq::<J>::empty(), completed: p.completed + p.queued }
}

impl<J> ThreadPool<J> {
    /// A pool of `size` workers with nothing queued and nothing run.
    /// A pool of zero workers would never drain its queue, so that size is
    /// rejected before construction.
    pub fn new(size: usize) -> (r: ThreadPool<J>)
        requires
            size > 0,
        ensures
            r@.workers == size,
            r@.queued == Seq::<J>::empty(),
            r@.completed == Seq::<J>::empty(),
    {
        ThreadPool { workers: size, queued: Vec::new(), completed: Vec::new() }
    }

    /// Accepts one job: it joins the tail of the queue and will be delivered
    /// to exactly one worker.
    pub fn execute(&mut self, job: J)
        ensures
            final(self)@ == pool_after_execute(old(self)@, job),
    {
        self.queued.push(job);
    }

    /// Replaces the worker set. The old workers first drain everything
    /// already queued, are then unblocked and joined, and `size` fresh
    /// workers take over an empty queue: no accepted job is lost or run
    /// twice.
    pub fn set_size(&mut self, size: usize)
        requires
            size > 0,
        ensures
            final(self)@ == pool_after_set_size(old(self)@, size as nat),
    {
        self.drain_queued();
        self.workers = size;
    }

    /// Terminates the pool: one termination marker per worker is queued
    /// behind the accepted jobs, so everything already accepted runs to
    /// completion before the workers are joined.
    pub fn shutdown(&mut self)
        ensures
            final(self)@ == pool_after_shutdown(old(self)@),
    {
        self.drain_queued();
        self.workers = 0;
    }

    /// Runs every queued job, oldest first.
    fn drain_queued(&mut self)
        ensures
            final(self)@.queued == Seq::<J>::empty(),
            final(self)@.completed == old(self)@.completed + old(self)@.queued,
            final(self)@.workers == old(self)@.workers,
    {
        let n = self.queued.len();
        let mut i: usize = 0;
        while i < n
            invariant
                n == old(self)@.queued.len(),
                i <= n,
                self@.workers == old(self)@.workers,
                self@.queued == old(self)@.queued.skip(i as int),
                self@.completed == old(self)@.completed + old(self)@.queued.take(i as int),
            decreases n - i,
        {
            let job = self.queued.remove(0);
            self.completed.push(job);
            i += 1;
            proof {
                assert(self@.queued =~= old(self)@.queued.skip(i as int));
                assert(self@.completed =~= old(self)@.completed + old(self)@.queued.take(
                    i as int,
                ));
            }
        }
        proof {
            assert(self@.queued =~= Seq::<J>::empty());
            assert(old(self)@.queued.take(n as int) =~= old(self)@.queued);
        }
    }

    /// How many workers serve the queue.
    pub fn worker_count(&self) -> (r: usize)
        ensures
            r == self@.workers,
    {
        self.workers
    }

    /// The accepted jobs no worker has taken yet, oldest first.
    pub fn queued_jobs(&self) -> (r: &Vec<J>)
        ensures
            r@ == self@.queued,
    {
        &self.queued
    }

    /// The jobs that have run, in completion order.
    pub fn completed_jobs(&self) -> (r: &Vec<J>)
        ensures
            r@ == self@.completed,
    {
        &self.completed
    }
}

impl<J: Copy> ThreadPool<J> {
    /// One worker takes the oldest queued job and runs it to completion;
    /// with an empty queue the worker finds nothing and the pool is
    /// unchanged.
    pub fn run_next(&mut self) -> (r: Option<J>)
        ensures
            old(self)@.queued.len() == 0 ==> r is None && final(self)@ == old(self)@,
            old(self)@.queued.len() > 0 ==> {
                &&& r == Some(old(self)@.queued[0])
                &&& final(self)@.queued == old(self)@.queued.drop_first()
                &&& final(self)@.completed == old(self)@.completed.push(old(self)@.queued[0])
            },
            final(self)@.workers == old(self)@.workers,
    {
        if self.queued.len() == 0 {
            None
        } else {
            let job = self.queued.remove(0);
            self.completed.push(job);
            proof {
                assert(self@.queued =~= old(self)@.queued.drop_first());
            }
            Some(job)
        }
    }
}

/// Folds a sequence of submissions over a pool.
pub open spec fn pool_after_executes<J>(p: PoolModel<J>, jobs: Seq<J>) -> PoolModel<J>
    decreases jobs.len(),
{
    if jobs.len() == 0 {
        p
    } else {
        pool_after_executes(pool_after_execute(p, jobs[0]), jobs.drop_first())
    }
}

/// Submissions pile up in order behind what was already queued.
proof fn lemma_executes_queue<J>(p: PoolModel<J>, jobs: Seq<J>)
    ensures
        pool_after_executes(p, jobs).queued == p.queued + jobs,
        pool_after_executes(p, jobs).completed == p.completed,
        pool_after_executes(p, jobs).workers == p.workers,
    decreases jobs.len(),
{
    if jobs.len() == 0 {
        assert(p.queued + jobs =~= p.queued);
    } else {
        lemma_executes_queue(pool_after_execute(p, jobs[0]), jobs.drop_first());
        assert(p.queued.push(jobs[0]) + jobs.drop_first() =~= p.queued + jobs);
    }
}

/// Submitting any number of jobs and then shutting down runs every one of
/// them to completion, in submission order, before `shutdown` returns.
pub proof fn lemma_jobs_complete_on_shutdown<J>(p: PoolModel<J>, jobs: Seq<J>)
    requires
        p.queued.len() == 0,
        p.completed.len() == 0,
    ensures
        pool_after_shutdown(pool_after_executes(p, jobs)).completed == jobs,
        pool_after_shutdown(pool_after_executes(p, jobs)).queued == Seq::<J>::empty(),
{
    lemma_executes_queue(p, jobs);
    assert(pool_after_shutdown(pool_after_executes(p, jobs)).completed =~= jobs);
}

/// Resizing neither loses nor duplicates work: the jobs accepted before the
/// resize began are exactly the jobs accounted for after it, in the same
/// order.
pub proof fn lemma_set_size_preserves_jobs<J>(p: PoolModel<J>, size: nat)
    ensures
        accepted_jobs(pool_after_set_size(p, size)) == accepted_jobs(p),
        pool_after_set_size(p, size).workers == size,
{
    assert(accepted_jobs(pool_after_set_size(p, size)) =~= accepted_jobs(p));
}

} // verus!
