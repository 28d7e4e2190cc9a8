//! The storage behind a job buffer: a bounded work-stealing deque held by one
//! owner at a time.
//!
//! The deque is a ring of optional slots addressed by two indices. Jobs enter
//! at `bottom`. The owner takes them back from `bottom`, newest first; a thief
//! takes them from `top`, oldest first. Its view is the sequence of pending
//! jobs, oldest first.

use vstd::prelude::*;
use crate::deque_model::{step_outcome, step_queue, Op, Outcome};
use crate::errors::{BufferEmpty, BufferFull};
use crate::job::Job;

verus! {

/// The slot after `index` in a ring of `capacity` slots.
pub open spec fn ring_next(index: int, capacity: int) -> int {
    if index + 1 >= capacity {
        0
    } else {
        index + 1
    }
}

/// The slot before `index` in a ring of `capacity` slots.
pub open spec fn ring_prev(index: int, capacity: int) -> int {
    if index <= 0 {
        capacity - 1
    } else {
        index - 1
    }
}

/// The slot that lies `offset` steps after `start` in a ring of `capacity`
/// slots, for `0 <= start < capacity` and `0 <= offset <= capacity`.
pub open spec fn ring_slot(start: int, offset: int, capacity: int) -> int {
    if start + offset < capacity {
        start + offset
    } else {
        start + offset - capacity
    }
}

/// How many steps after `start` the slot `index` lies.
pub open spec fn ring_offset(start: int, index: int, capacity: int) -> int {
    if index >= start {
        index - start
    } else {
        index + capacity - start
    }
}

/// What a push that was given `job` came to.
pub open spec fn push_outcome(job: Job, pushed: Result<(), BufferFull>) -> Outcome {
    match pushed {
        Ok(_) => Outcome::Pushed(job),
        Err(full) => Outcome::Rejected(full.not_pushed),
    }
}

/// What a pop came to.
pub open spec fn pop_outcome(popped: Result<Job, BufferEmpty>) -> Outcome {
    match popped {
        Ok(job) => Outcome::Popped(job),
        Err(_) => Outcome::Empty,
    }
}

/// What a steal came to.
pub open spec fn steal_outcome(stolen: Result<Job, BufferEmpty>) -> Outcome {
    match stolen {
        Ok(job) => Outcome::Stolen(job),
        Err(_) => Outcome::Empty,
    }
}

/// A bounded deque of jobs with a capacity fixed at construction.
pub struct JobDeque {
    slots: Vec<Option<Job>>,
    top: usize,
    bottom: usize,
}

impl View for JobDeque {
    type V = Seq<Job>;

    /// The pending jobs, oldest first.
    closed spec fn view(&self) -> Seq<Job> {
        Seq::new(
            self.count(),
            |i: int| self.slots[ring_slot(self.top as int, i, self.slots.len() as int)]->0,
        )
    }
}

impl JobDeque {
    /// The number of slots.
    pub closed spec fn spec_capacity(&self) -> nat {
        self.slots.len() as nat
    }

    /// The index of the oldest job: where a thief takes from.
    pub closed spec fn top(&self) -> int {
        self.top as int
    }

    /// The index behind the newest job: where the owner puts the next one.
    pub closed spec fn bottom(&self) -> int {
        self.bottom as int
    }

    /// The number of live jobs: `bottom - top`, counted around the ring, and
    /// the whole ring where the two indices meet on an occupied slot.
    closed spec fn count(&self) -> nat {
        if self.slots.len() == 0 || self.slots[self.top as int] is None {
            0
        } else if self.bottom > self.top {
            (self.bottom - self.top) as nat
        } else {
            (self.slots.len() - self.top + self.bottom) as nat
        }
    }

    /// The two indices lie in the ring, and the occupied slots are exactly
    /// the `count` slots that start at `top`.
    pub closed spec fn wf(&self) -> bool {
        let capacity = self.slots.len() as int;
        &&& capacity == 0 ==> self.top == 0 && self.bottom == 0
        &&& capacity > 0 ==> self.top < capacity && self.bottom < capacity
        &&& self.count() == 0 ==> self.bottom == self.top
        &&& forall|k: int|
            0 <= k < capacity ==> ((#[trigger] self.slots[k]) is Some <==> ring_offset(
                self.top as int,
                k,
                capacity,
            ) < self.count())
    }

    /// A well-formed deque never holds more jobs than it has slots.
    pub proof fn lemma_len_bounded(&self)
        requires
            self.wf(),
        ensures
            self@.len() <= self.spec_capacity(),
    {
    }

    /// The number of pending jobs is the way from `top` to `bottom` around
    /// the ring; where the two meet, the deque is empty or full.
    pub proof fn lemma_len_by_indices(&self)
        requires
            self.wf(),
            self.spec_capacity() > 0,
        ensures
            0 <= self.top() < self.spec_capacity(),
            0 <= self.bottom() < self.spec_capacity(),
            self.top() != self.bottom() ==> self@.len() == ring_offset(
                self.top(),
                self.bottom(),
                self.spec_capacity() as int,
            ),
            self.top() == self.bottom() ==> self@.len() == 0 || self@.len() == self.spec_capacity(),
    {
    }

    /// A deque of `capacity` empty slots, with both indices at 0.
    pub fn new(capacity: usize) -> (deque: JobDeque)
        ensures
            deque.wf(),
            deque.spec_capacity() == capacity,
            deque@ == Seq::<Job>::empty(),
            deque.top() == 0,
            deque.bottom() == 0,
    {
        let mut slots: Vec<Option<Job>> = Vec::new();
        let mut filled: usize = 0;
        while filled < capacity
            invariant
                filled <= capacity,
                slots.len() == filled,
                forall|k: int| 0 <= k < filled ==> (#[trigger] slots[k]) is None,
            decreases capacity - filled,
        {
            slots.push(None);
            filled = filled + 1;
        }
        let deque = JobDeque { slots, top: 0, bottom: 0 };
        assert(deque@ =~= Seq::<Job>::empty());
        deque
    }

    /// The number of slots.
    pub fn capacity(&self) -> (capacity: usize)
        ensures
            capacity == self.spec_capacity(),
    {
        self.slots.len()
    }

    /// The number of pending jobs.
    pub fn len(&self) -> (len: usize)
        requires
            self.wf(),
        ensures
            len == self@.len(),
    {
        let capacity = self.slots.len();
        if capacity == 0 || self.slots[self.top].is_none() {
            0
        } else if self.bottom > self.top {
            self.bottom - self.top
        } else {
            capacity - self.top + self.bottom
        }
    }

    /// Whether no job is pending.
    pub fn is_empty(&self) -> (empty: bool)
        requires
            self.wf(),
        ensures
            empty <==> self@.len() == 0,
    {
        self.slots.len() == 0 || self.slots[self.top].is_none()
    }

    /// Whether every slot holds a job.
    pub fn is_full(&self) -> (full: bool)
        requires
            self.wf(),
        ensures
            full <==> self@.len() == self.spec_capacity(),
    {
        self.slots.len() == 0 || self.slots[self.bottom].is_some()
    }

    /// Owner side: stores `job` at `bottom` and advances `bottom`. On a full
    /// deque nothing changes and the job comes back in the error.
    pub fn push(&mut self, job: Job) -> (pushed: Result<(), BufferFull>)
        requires
            old(self).wf(),
        ensures
            final(self).wf(),
            final(self).spec_capacity() == old(self).spec_capacity(),
            old(self)@.len() < old(self).spec_capacity() ==> pushed is Ok && final(self)@ == old(
                self,
            )@.push(job),
            old(self)@.len() >= old(self).spec_capacity() ==> pushed == Err::<(), BufferFull>(
                BufferFull { not_pushed: job },
            ) && *final(self) == *old(self),
            final(self).top() == old(self).top(),
            final(self).bottom() == if pushed is Ok {
                ring_next(old(self).bottom(), old(self).spec_capacity() as int)
            } else {
                old(self).bottom()
            },
            final(self)@ == step_queue(old(self)@, old(self).spec_capacity(), Op::Push(job)),
            push_outcome(job, pushed) == step_outcome(
                old(self)@,
                old(self).spec_capacity(),
                Op::Push(job),
            ),
    {
        let capacity = self.slots.len();
        if capacity == 0 || self.slots[self.bottom].is_some() {
            return Err(BufferFull { not_pushed: job });
        }
        let ghost before = *self;
        let at = self.bottom;
        self.slots[at] = Some(job);
        self.bottom = if at + 1 == capacity {
            0
        } else {
            at + 1
        };
        proof {
            assert(ring_offset(before.top as int, at as int, capacity as int) == before.count());
            assert(self.count() == before.count() + 1);
            assert(self@ =~= before@.push(job));
        }
        Ok(())
    }

    /// Owner side: takes the job below `bottom`, the one pushed last.
    pub fn wait_and_pop(&mut self) -> (popped: Result<Job, BufferEmpty>)
        requires
            old(self).wf(),
        ensures
            final(self).wf(),
            final(self).spec_capacity() == old(self).spec_capacity(),
            old(self)@.len() > 0 ==> popped == Ok::<Job, BufferEmpty>(old(self)@.last())
                && final(self)@ == old(self)@.drop_last(),
            old(self)@.len() == 0 ==> popped is Err && *final(self) == *old(self),
            final(self).top() == old(self).top(),
            final(self).bottom() == if popped is Ok {
                ring_prev(old(self).bottom(), old(self).spec_capacity() as int)
            } else {
                old(self).bottom()
            },
            final(self)@ == step_queue(old(self)@, old(self).spec_capacity(), Op::Pop),
            pop_outcome(popped) == step_outcome(old(self)@, old(self).spec_capacity(), Op::Pop),
    {
        let capacity = self.slots.len();
        if capacity == 0 {
            return Err(BufferEmpty);
        }
        let at = if self.bottom == 0 {
            capacity - 1
        } else {
            self.bottom - 1
        };
        if self.slots[at].is_none() {
            return Err(BufferEmpty);
        }
        let ghost before = *self;
        let taken = self.slots[at].take();
        self.bottom = at;
        proof {
            assert(ring_offset(before.top as int, at as int, capacity as int) == before.count()
                - 1);
            assert(self.count() == before.count() - 1);
            assert(self@ =~= before@.drop_last());
        }
        Ok(taken.unwrap())
    }

    /// Thief side: takes the job at `top`, the oldest one, and advances `top`.
    pub fn steal(&mut self) -> (stolen: Result<Job, BufferEmpty>)
        requires
            old(self).wf(),
        ensures
            final(self).wf(),
            final(self).spec_capacity() == old(self).spec_capacity(),
            old(self)@.len() > 0 ==> stolen == Ok::<Job, BufferEmpty>(old(self)@.first())
                && final(self)@ == old(self)@.drop_first(),
            old(self)@.len() == 0 ==> stolen is Err && *final(self) == *old(self),
            final(self).bottom() == old(self).bottom(),
            final(self).top() == if stolen is Ok {
                ring_next(old(self).top(), old(self).spec_capacity() as int)
            } else {
                old(self).top()
            },
            final(self)@ == step_queue(old(self)@, old(self).spec_capacity(), Op::Steal),
            steal_outcome(stolen) == step_outcome(old(self)@, old(self).spec_capacity(), Op::Steal),
    {
        let capacity = self.slots.len();
        if capacity == 0 || self.slots[self.top].is_none() {
            return Err(BufferEmpty);
        }
        let ghost before = *self;
        let at = self.top;
        let taken = self.slots[at].take();
        self.top = if at + 1 == capacity {
            0
        } else {
            at + 1
        };
        proof {
            assert(self.count() == before.count() - 1);
            assert(self@ =~= before@.drop_first());
        }
        Ok(taken.unwrap())
    }
}

} // verus!
