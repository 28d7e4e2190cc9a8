//! The job buffer: one worker's bounded queue of pending jobs, shared between
//! its owner and any number of thieves.
//!
//! A buffer is a handle. Duplicating it gives another handle on the same
//! deque: whoever holds one may push, pop and steal, and sees what the others
//! did. A lock lets one operation at a time reach the deque, so concurrent
//! operations take effect one after another, each as `JobDeque` states it.
//!
//! That order is kept on record. Beside the deque, the lock keeps the
//! sequence of all operations that ever reached it and of what each came
//! to, and it keeps them true: the deque holds what the run of these
//! operations on an empty deque leaves, and every result that was handed out
//! is the outcome of its operation in that run. So what holds of every run
//! holds of the life of every buffer. The record exists for the proof only
//! and takes no space or time.
//!
//! The record is one for all the handles of a buffer, and it does not know
//! them: through which handle an operation came makes no difference to what
//! it leaves or comes to (`lemma_handles_alike` and
//! `lemma_pushed_by_one_taken_by_other` of the model). That two handles reach
//! the same deque is what `same_storage` says of them.

use std::sync::Arc;
use vstd::prelude::*;
use vstd::multiset::Multiset;
use vstd::rwlock::{RwLock, RwLockPredicate};
use vstd::seq_lib::to_multiset_contains;
use crate::deque_model::{
    accepted, delivered, lemma_jobs_conserved, lemma_multiset_empty, lemma_run_bounded,
    pops_served, pushes_stored, run_outcomes, run_queue, steals_served, Op, Outcome,
};
use crate::errors::{BufferEmpty, BufferFull};
use crate::job::Job;
use crate::job_deque::{pop_outcome, push_outcome, steal_outcome, JobDeque};

verus! {

/// A deque together with the record of what was done to it since it was
/// made.
pub struct Recorded {
    deque: JobDeque,
    history: Ghost<Seq<Op>>,
    outcomes: Ghost<Seq<Outcome>>,
}

impl Recorded {
    /// The pending jobs, oldest first.
    pub closed spec fn queue(&self) -> Seq<Job> {
        self.deque@
    }

    /// The number of slots.
    pub closed spec fn spec_capacity(&self) -> nat {
        self.deque.spec_capacity()
    }

    /// Every operation that reached the deque, in the order in which they
    /// took effect.
    pub closed spec fn history(&self) -> Seq<Op> {
        self.history@
    }

    /// What each of these operations handed to its caller.
    pub closed spec fn outcomes(&self) -> Seq<Outcome> {
        self.outcomes@
    }

    /// The record is true: the deque holds what the run of the history on
    /// an empty deque leaves, and the results handed out are the outcomes
    /// of that run.
    pub closed spec fn wf(&self) -> bool {
        &&& self.deque.wf()
        &&& self.deque@ == run_queue(Seq::empty(), self.spec_capacity(), self.history@)
        &&& self.outcomes@ == run_outcomes(Seq::empty(), self.spec_capacity(), self.history@)
    }

    /// What a true record says, in the open.
    pub proof fn lemma_record(&self)
        requires
            self.wf(),
        ensures
            self.queue() == run_queue(Seq::empty(), self.spec_capacity(), self.history()),
            self.outcomes() == run_outcomes(Seq::empty(), self.spec_capacity(), self.history()),
            self.outcomes().len() == self.history().len(),
            self.queue().len() <= self.spec_capacity(),
    {
        lemma_run_bounded(Seq::empty(), self.spec_capacity(), self.history());
    }

    /// Over the whole life of a deque, the jobs that were delivered
    /// together with those still queued are the jobs that pushes stored:
    /// none was delivered twice, none was lost, none came from nothing. In
    /// numbers, successful pops plus successful steals plus what is queued
    /// equals successful pushes.
    pub proof fn lemma_conserved(&self)
        requires
            self.wf(),
        ensures
            delivered(self.outcomes()).add(self.queue().to_multiset()) == accepted(
                self.outcomes(),
            ),
            pops_served(self.outcomes()) + steals_served(self.outcomes()) + self.queue().len()
                == pushes_stored(self.outcomes()),
    {
        lemma_jobs_conserved(Seq::empty(), self.spec_capacity(), self.history());
        lemma_multiset_empty();
        assert(Multiset::<Job>::empty().add(accepted(self.outcomes())) =~= accepted(
            self.outcomes(),
        ));
    }

    /// Nothing comes from nothing: every job that is queued was stored by
    /// a push on record.
    pub proof fn lemma_queued_were_stored(&self, at: int)
        requires
            self.wf(),
            0 <= at < self.queue().len(),
        ensures
            accepted(self.outcomes()).count(self.queue()[at]) > 0,
    {
        self.lemma_conserved();
        let job = self.queue()[at];
        to_multiset_contains(self.queue(), job);
        assert(self.queue().contains(job));
    }

    /// An empty deque of `capacity` slots, to which nothing was done yet.
    pub fn new(capacity: usize) -> (recorded: Recorded)
        ensures
            recorded.wf(),
            recorded.spec_capacity() == capacity,
            recorded.queue() == Seq::<Job>::empty(),
            recorded.history() == Seq::<Op>::empty(),
            recorded.outcomes() == Seq::<Outcome>::empty(),
    {
        Recorded {
            deque: JobDeque::new(capacity),
            history: Ghost(Seq::empty()),
            outcomes: Ghost(Seq::empty()),
        }
    }

    /// Pushes as `JobDeque::push` does, and records it.
    pub fn push(&mut self, job: Job) -> (pushed: Result<(), BufferFull>)
        requires
            old(self).wf(),
        ensures
            final(self).wf(),
            final(self).spec_capacity() == old(self).spec_capacity(),
            final(self).history() == old(self).history().push(Op::Push(job)),
            final(self).outcomes() == old(self).outcomes().push(push_outcome(job, pushed)),
            old(self).queue().len() < old(self).spec_capacity() ==> {
                &&& pushed is Ok
                &&& final(self).queue() == old(self).queue().push(job)
            },
            old(self).queue().len() >= old(self).spec_capacity() ==> pushed == Err::<
                (),
                BufferFull,
            >(BufferFull { not_pushed: job }) && final(self).queue() == old(self).queue(),
    {
        let ghost op = Op::Push(job);
        let pushed = self.deque.push(job);
        proof {
            assert(self.history@.push(op).drop_last() =~= self.history@);
        }
        self.outcomes = Ghost(self.outcomes@.push(push_outcome(job, pushed)));
        self.history = Ghost(self.history@.push(op));
        pushed
    }

    /// Pops as `JobDeque::wait_and_pop` does, and records it.
    pub fn wait_and_pop(&mut self) -> (popped: Result<Job, BufferEmpty>)
        requires
            old(self).wf(),
        ensures
            final(self).wf(),
            final(self).spec_capacity() == old(self).spec_capacity(),
            final(self).history() == old(self).history().push(Op::Pop),
            final(self).outcomes() == old(self).outcomes().push(pop_outcome(popped)),
            old(self).queue().len() > 0 ==> popped == Ok::<Job, BufferEmpty>(
                old(self).queue().last(),
            ) && final(self).queue() == old(self).queue().drop_last(),
            old(self).queue().len() == 0 ==> {
                &&& popped is Err
                &&& final(self).queue() == old(self).queue()
            },
    {
        let popped = self.deque.wait_and_pop();
        proof {
            assert(self.history@.push(Op::Pop).drop_last() =~= self.history@);
        }
        self.outcomes = Ghost(self.outcomes@.push(pop_outcome(popped)));
        self.history = Ghost(self.history@.push(Op::Pop));
        popped
    }

    /// Steals as `JobDeque::steal` does, and records it.
    pub fn steal(&mut self) -> (stolen: Result<Job, BufferEmpty>)
        requires
            old(self).wf(),
        ensures
            final(self).wf(),
            final(self).spec_capacity() == old(self).spec_capacity(),
            final(self).history() == old(self).history().push(Op::Steal),
            final(self).outcomes() == old(self).outcomes().push(steal_outcome(stolen)),
            old(self).queue().len() > 0 ==> stolen == Ok::<Job, BufferEmpty>(
                old(self).queue().first(),
            ) && final(self).queue() == old(self).queue().drop_first(),
            old(self).queue().len() == 0 ==> {
                &&& stolen is Err
                &&& final(self).queue() == old(self).queue()
            },
    {
        let stolen = self.deque.steal();
        proof {
            assert(self.history@.push(Op::Steal).drop_last() =~= self.history@);
        }
        self.outcomes = Ghost(self.outcomes@.push(steal_outcome(stolen)));
        self.history = Ghost(self.history@.push(Op::Steal));
        stolen
    }
}

/// What the lock of a buffer keeps: a deque of the capacity the buffer was
/// made with, whose record is true.
pub struct Kept {
    pub capacity: nat,
}

impl RwLockPredicate<Recorded> for Kept {
    open spec fn inv(self, recorded: Recorded) -> bool {
        recorded.wf() && recorded.spec_capacity() == self.capacity
    }
}

/// A handle on a shared, bounded work-stealing queue of jobs.
pub struct JobBuffer {
    shared: Arc<RwLock<Recorded, Kept>>,
    capacity: usize,
}

impl JobBuffer {
    /// The handle knows the capacity that the lock keeps.
    #[verifier::type_invariant]
    spec fn knows_capacity(&self) -> bool {
        self.capacity == self.shared.pred().capacity
    }

    /// The number of slots of the deque behind this handle. It never changes.
    pub closed spec fn spec_capacity(&self) -> nat {
        self.capacity as nat
    }

    /// Whether two handles lead to the same deque.
    pub closed spec fn same_storage(&self, other: &JobBuffer) -> bool {
        self.shared == other.shared
    }

    /// Leading to the same deque is an equivalence: a handle leads where
    /// it leads, and handles that lead where a third one leads lead to the
    /// same deque. So every duplicate of a duplicate is a handle on the
    /// deque of the first.
    pub proof fn lemma_same_storage(&self, second: &JobBuffer, third: &JobBuffer)
        ensures
            self.same_storage(self),
            self.same_storage(second) ==> second.same_storage(self),
            self.same_storage(second) && second.same_storage(third) ==> self.same_storage(third),
    {
    }

    /// A buffer of `capacity` empty slots.
    pub fn new(capacity: usize) -> (buffer: JobBuffer)
        ensures
            buffer.spec_capacity() == capacity,
    {
        let recorded = Recorded::new(capacity);
        let lock = RwLock::<Recorded, Kept>::new(
            recorded,
            Ghost(Kept { capacity: capacity as nat }),
        );
        JobBuffer { shared: Arc::new(lock), capacity }
    }

    /// Another handle on the same deque. No job is copied.
    pub fn duplicate(&self) -> (handle: JobBuffer)
        ensures
            handle.same_storage(self),
            handle.spec_capacity() == self.spec_capacity(),
    {
        proof {
            use_type_invariant(self);
        }
        JobBuffer { shared: self.shared.clone(), capacity: self.capacity }
    }

    /// A handle on the same deque that can only steal.
    pub fn stealer(&self) -> (handle: Stealer)
        ensures
            handle.buffer().same_storage(self),
            handle.buffer().spec_capacity() == self.spec_capacity(),
    {
        Stealer { buffer: self.duplicate() }
    }

    /// The number of slots.
    pub fn capacity(&self) -> (capacity: usize)
        ensures
            capacity == self.spec_capacity(),
    {
        self.capacity
    }

    /// Owner side: pushes `job`, or hands it back if the deque is full at
    /// that moment.
    pub fn push(&self, job: Job) -> (pushed: Result<(), BufferFull>)
        ensures
            pushed matches Err(full) ==> full.not_pushed == job,
            self.spec_capacity() == 0 ==> pushed is Err,
    {
        proof {
            use_type_invariant(self);
        }
        let (mut recorded, guard) = self.shared.acquire_write();
        proof {
            recorded.lemma_record();
        }
        let pushed = recorded.push(job);
        guard.release_write(recorded);
        pushed
    }

    /// Owner side: takes the job pushed last, if there is one at that
    /// moment. It waits for the lock only, never for a job to arrive.
    pub fn wait_and_pop(&self) -> (popped: Result<Job, BufferEmpty>)
        ensures
            self.spec_capacity() == 0 ==> popped is Err,
    {
        proof {
            use_type_invariant(self);
        }
        let (mut recorded, guard) = self.shared.acquire_write();
        proof {
            recorded.lemma_record();
        }
        let popped = recorded.wait_and_pop();
        guard.release_write(recorded);
        popped
    }

    /// Thief side: takes the oldest job, if there is one at that moment.
    pub fn steal(&self) -> (stolen: Result<Job, BufferEmpty>)
        ensures
            self.spec_capacity() == 0 ==> stolen is Err,
    {
        proof {
            use_type_invariant(self);
        }
        let (mut recorded, guard) = self.shared.acquire_write();
        proof {
            recorded.lemma_record();
        }
        let stolen = recorded.steal();
        guard.release_write(recorded);
        stolen
    }
}

/// A handle on a job buffer that can only steal from it: what a worker
/// holds of its peers.
pub struct Stealer {
    buffer: JobBuffer,
}

impl Stealer {
    /// The buffer that this handle steals from.
    pub closed spec fn buffer(&self) -> JobBuffer {
        self.buffer
    }

    /// Thief side: takes the oldest job of the buffer, if there is one at
    /// that moment.
    pub fn steal(&self) -> (stolen: Result<Job, BufferEmpty>)
        ensures
            self.buffer().spec_capacity() == 0 ==> stolen is Err,
    {
        self.buffer.steal()
    }
}

impl Clone for Stealer {
    /// Another stealing handle on the same buffer.
    fn clone(&self) -> (handle: Stealer)
        ensures
            handle.buffer().same_storage(&self.buffer()),
            handle.buffer().spec_capacity() == self.buffer().spec_capacity(),
    {
        Stealer { buffer: self.buffer.duplicate() }
    }
}

impl Clone for JobBuffer {
    /// Another handle on the same deque.
    fn clone(&self) -> (handle: JobBuffer)
        ensures
            handle.same_storage(self),
            handle.spec_capacity() == self.spec_capacity(),
    {
        self.duplicate()
    }
}

} // verus!
