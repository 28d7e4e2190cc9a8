//! The job system: the buffers of a pool of workers, and the rules by which
//! a worker finds its next job.
//!
//! Every thread of the pool, the one that starts the system included, has a
//! buffer of its own and handles on the buffers of all its peers. A worker
//! pops from its own buffer; when that is empty it tries to steal from its
//! peers, one after the other, starting behind the peer it tried last; when
//! none has a job it parks for a moment. Once shutdown is signalled it stops
//! taking jobs, and what is still queued is dropped without being run.
//!
//! The library decides; the threads themselves are the caller's. A panic
//! that escapes a job is not caught here: it ends the thread that ran the
//! job, and the caller sees it when it joins that thread.

use vstd::prelude::*;
use crate::errors::BufferFull;
use crate::job::Job;
use crate::job_buffer::{JobBuffer, Stealer};
use crate::job_deque::{ring_offset, ring_slot};

verus! {

/// What a worker is doing.
#[derive(Clone, Copy, Debug, PartialEq, Eq, Structural)]
pub enum WorkerState {
    /// It has no job.
    Idle,
    /// It runs a job.
    Executing,
    /// It has stopped taking jobs.
    ShuttingDown,
}

/// What a worker is to do next.
pub enum Step {
    /// Invoke this job, then report back with `finish`.
    Run(Job),
    /// Nothing was found: yield for a moment, then ask again.
    Park,
    /// Leave the loop.
    Stop,
}

/// What a round of stealing came to.
pub struct Stolen {
    /// The job that was stolen, if a peer had one.
    pub job: Option<Job>,
    /// The number of peers that were tried.
    pub attempts: usize,
}

/// The number of threads to run jobs on, the calling thread included: as
/// many as were asked for, but at least one and, where the machine reports
/// its cores, at most one per core.
pub open spec fn spec_thread_count(cpu_count: usize, workers: usize) -> usize {
    if workers == 0 || cpu_count <= 1 {
        1
    } else if workers > cpu_count {
        cpu_count
    } else {
        workers
    }
}

/// The number of threads to run jobs on, the calling thread included.
#[verifier::when_used_as_spec(spec_thread_count)]
pub fn thread_count(cpu_count: usize, workers: usize) -> (threads: usize)
    ensures
        threads == spec_thread_count(cpu_count, workers),
        1 <= threads,
        cpu_count >= 1 ==> threads <= cpu_count,
        1 <= workers <= cpu_count ==> threads == workers,
{
    if workers == 0 || cpu_count <= 1 {
        1
    } else if workers > cpu_count {
        cpu_count
    } else {
        workers
    }
}

/// What a worker does once it has looked for a job, and the state it is in
/// then. A signalled shutdown wins over a job that was found: the job is
/// dropped.
pub fn decide(shutdown: bool, found: Option<Job>) -> (decided: (WorkerState, Step))
    ensures
        decided == match (shutdown, found) {
            (true, _) => (WorkerState::ShuttingDown, Step::Stop),
            (false, Some(job)) => (WorkerState::Executing, Step::Run(job)),
            (false, None) => (WorkerState::Idle, Step::Park),
        },
{
    if shutdown {
        (WorkerState::ShuttingDown, Step::Stop)
    } else {
        match found {
            Some(job) => (WorkerState::Executing, Step::Run(job)),
            None => (WorkerState::Idle, Step::Park),
        }
    }
}

/// In a round that starts at `start`, every one of the `peers` peers is
/// tried, and none twice: the peer `peer` at the attempt numbered
/// `ring_offset(start, peer, peers)` and at no other.
pub proof fn lemma_round_tries_each_peer_once(start: int, peers: int, peer: int)
    requires
        0 <= start < peers,
        0 <= peer < peers,
    ensures
        0 <= ring_offset(start, peer, peers) < peers,
        ring_slot(start, ring_offset(start, peer, peers), peers) == peer,
        forall|attempt: int|
            0 <= attempt < peers && #[trigger] ring_slot(start, attempt, peers) == peer
                ==> attempt == ring_offset(start, peer, peers),
{
}

/// One thread's share of the job system: its own buffer and stealing
/// handles on the buffers of its peers.
pub struct Worker {
    index: usize,
    own: JobBuffer,
    peers: Vec<Stealer>,
    next_victim: usize,
    searched: usize,
    state: WorkerState,
}

impl Worker {
    /// The number of this worker in its job system; the thread that
    /// started the system is number 0.
    pub closed spec fn spec_index(&self) -> usize {
        self.index
    }

    /// What the worker is doing.
    pub closed spec fn spec_state(&self) -> WorkerState {
        self.state
    }

    /// The worker's own buffer.
    pub closed spec fn own(&self) -> JobBuffer {
        self.own
    }

    /// The buffers of the peers, in the order in which a round that starts
    /// at the first one tries them.
    pub closed spec fn peers(&self) -> Seq<Stealer> {
        self.peers@
    }

    /// The peer that the next round of stealing starts with.
    pub closed spec fn next_victim(&self) -> int {
        self.next_victim as int
    }

    /// The number of peers that the last search for a job tried: none
    /// where the worker's own buffer had a job or the worker did not look.
    pub closed spec fn spec_searched(&self) -> usize {
        self.searched
    }

    /// The next victim is one of the peers, where there are any.
    pub closed spec fn wf(&self) -> bool {
        if self.peers.len() == 0 {
            self.next_victim == 0
        } else {
            self.next_victim < self.peers.len()
        }
    }

    /// An idle worker with the given buffers, whose first round of
    /// stealing starts with the first peer.
    pub fn new(index: usize, own: JobBuffer, peers: Vec<Stealer>) -> (worker: Worker)
        ensures
            worker.wf(),
            worker.index() == index,
            worker.own() == own,
            worker.peers() == peers@,
            worker.next_victim() == 0,
            worker.searched() == 0,
            worker.state() == WorkerState::Idle,
    {
        Worker { index, own, peers, next_victim: 0, searched: 0, state: WorkerState::Idle }
    }

    /// The number of this worker in its job system.
    #[verifier::when_used_as_spec(spec_index)]
    pub fn index(&self) -> (index: usize)
        ensures
            index == self.spec_index(),
    {
        self.index
    }

    /// The number of peers that the last search for a job tried.
    #[verifier::when_used_as_spec(spec_searched)]
    pub fn searched(&self) -> (searched: usize)
        ensures
            searched == self.spec_searched(),
    {
        self.searched
    }

    /// What the worker is doing.
    #[verifier::when_used_as_spec(spec_state)]
    pub fn state(&self) -> (state: WorkerState)
        ensures
            state == self.spec_state(),
    {
        self.state
    }

    /// Queues `job` on this worker's own buffer, as `JobBuffer::push` does.
    /// Where the buffer is full at that moment the job comes back, for the
    /// caller to run it or to try again; a buffer without slots is always
    /// full.
    pub fn submit(&self, job: Job) -> (submitted: Result<(), BufferFull>)
        ensures
            submitted matches Err(full) ==> full.not_pushed == job,
            self.own().spec_capacity() == 0 ==> submitted is Err,
    {
        self.own.push(job)
    }

    /// One round of stealing: tries the peers one after the other, from
    /// the next victim on and around, until one yields a job. The next
    /// round will start behind the peer that was tried last.
    pub fn steal_from_peers(&mut self) -> (stolen: Stolen)
        requires
            old(self).wf(),
        ensures
            final(self).wf(),
            final(self).index() == old(self).index(),
            final(self).own() == old(self).own(),
            final(self).peers() == old(self).peers(),
            final(self).state() == old(self).state(),
            final(self).searched() == stolen.attempts,
            stolen.attempts <= old(self).peers().len(),
            stolen.job is None ==> stolen.attempts == old(self).peers().len(),
            stolen.job is Some ==> stolen.attempts >= 1,
            old(self).peers().len() > 0 ==> final(self).next_victim() == ring_slot(
                old(self).next_victim(),
                stolen.attempts as int,
                old(self).peers().len() as int,
            ),
    {
        let peers = self.peers.len();
        let start = self.next_victim;
        let mut attempts: usize = 0;
        let mut job: Option<Job> = None;
        while attempts < peers && job.is_none()
            invariant
                peers == self.peers.len(),
                start == self.next_victim,
                peers > 0 ==> start < peers,
                attempts <= peers,
                job is Some ==> attempts >= 1,
            decreases peers - attempts + if job is None { 1int } else { 0int },
        {
            let room = peers - start;
            let victim = if attempts < room {
                start + attempts
            } else {
                attempts - room
            };
            match self.peers[victim].steal() {
                Ok(taken) => {
                    job = Some(taken);
                },
                Err(_) => {},
            }
            attempts = attempts + 1;
        }
        if peers > 0 {
            let room = peers - start;
            self.next_victim = if attempts < room {
                start + attempts
            } else {
                attempts - room
            };
        }
        self.searched = attempts;
        Stolen { job, attempts }
    }

    /// Finds the worker's next step. Once shutdown is signalled, or the
    /// worker has stopped before, it stops without looking for a job. Else
    /// it pops from its own buffer, steals where that is empty, and parks
    /// where nothing is to be had.
    ///
    /// The search moves the next victim on by the peers it tried, and by
    /// no more: a worker that parks has tried every peer once, so that its
    /// next round begins where this one began; one that found a job at a
    /// peer begins its next round behind that peer; and one that stopped or
    /// popped its own job has tried none.
    pub fn next(&mut self, shutdown: bool) -> (step: Step)
        requires
            old(self).wf(),
        ensures
            final(self).wf(),
            final(self).index() == old(self).index(),
            final(self).own() == old(self).own(),
            final(self).peers() == old(self).peers(),
            shutdown || old(self).state() == WorkerState::ShuttingDown ==> {
                &&& step is Stop
                &&& final(self).next_victim() == old(self).next_victim()
            },
            !shutdown && old(self).state() != WorkerState::ShuttingDown ==> !(step is Stop),
            final(self).state() == match step {
                Step::Run(_) => WorkerState::Executing,
                Step::Park => WorkerState::Idle,
                Step::Stop => WorkerState::ShuttingDown,
            },
            final(self).searched() <= old(self).peers().len(),
            step is Stop ==> final(self).searched() == 0,
            step is Park ==> final(self).searched() == old(self).peers().len(),
            step is Park ==> final(self).next_victim() == old(self).next_victim(),
            old(self).peers().len() > 0 ==> final(self).next_victim() == ring_slot(
                old(self).next_victim(),
                final(self).searched() as int,
                old(self).peers().len() as int,
            ),
            old(self).peers().len() == 0 ==> final(self).next_victim() == old(self).next_victim(),
    {
        let stopping = shutdown || match self.state {
            WorkerState::ShuttingDown => true,
            _ => false,
        };
        self.searched = 0;
        if stopping {
            self.state = WorkerState::ShuttingDown;
            return Step::Stop;
        }
        let found = match self.own.wait_and_pop() {
            Ok(job) => Some(job),
            Err(_) => self.steal_from_peers().job,
        };
        let (state, step) = decide(false, found);
        self.state = state;
        step
    }

    /// Reports that the job of the last `Run` step has returned: an
    /// executing worker is idle again. In any other state nothing changes.
    pub fn finish(&mut self)
        requires
            old(self).wf(),
        ensures
            final(self).wf(),
            final(self).index() == old(self).index(),
            final(self).own() == old(self).own(),
            final(self).peers() == old(self).peers(),
            final(self).next_victim() == old(self).next_victim(),
            final(self).searched() == old(self).searched(),
            final(self).state() == if old(self).state() == WorkerState::Executing {
                WorkerState::Idle
            } else {
                old(self).state()
            },
    {
        match self.state {
            WorkerState::Executing => {
                self.state = WorkerState::Idle;
            },
            _ => {},
        }
    }
}

/// The buffers of a pool of threads, one each. Number 0 is the buffer of
/// the thread that started the system.
pub struct JobSystem {
    buffers: Vec<JobBuffer>,
}

impl JobSystem {
    /// The buffers, by the number of their thread.
    pub closed spec fn buffers(&self) -> Seq<JobBuffer> {
        self.buffers@
    }

    /// There is a buffer for the starting thread at least.
    pub closed spec fn wf(&self) -> bool {
        self.buffers.len() >= 1
    }

    /// A job system for `thread_count(cpu_count, workers)` threads, each
    /// with an empty buffer of `buffer_capacity` slots.
    pub fn init(buffer_capacity: usize, cpu_count: usize, workers: usize) -> (system: JobSystem)
        ensures
            system.wf(),
            system.buffers().len() == thread_count(cpu_count, workers),
            forall|i: int|
                0 <= i < system.buffers().len() ==> (#[trigger] system.buffers()[i]).spec_capacity()
                    == buffer_capacity,
    {
        let threads = thread_count(cpu_count, workers);
        let mut buffers: Vec<JobBuffer> = Vec::new();
        let mut made: usize = 0;
        while made < threads
            invariant
                made <= threads,
                buffers.len() == made,
                forall|i: int|
                    0 <= i < made ==> (#[trigger] buffers[i]).spec_capacity() == buffer_capacity,
            decreases threads - made,
        {
            buffers.push(JobBuffer::new(buffer_capacity));
            made = made + 1;
        }
        JobSystem { buffers }
    }

    /// The number of threads of the system, the starting thread included.
    pub fn threads(&self) -> (threads: usize)
        ensures
            threads == self.buffers().len(),
    {
        self.buffers.len()
    }

    /// The share of thread number `index`: a handle on its own buffer, and
    /// handles on the buffers of all the others, in the order of their
    /// numbers from `index + 1` on and around.
    pub fn worker(&self, index: usize) -> (worker: Option<Worker>)
        ensures
            index >= self.buffers().len() ==> worker is None,
            index < self.buffers().len() ==> match worker {
                Some(share) => {
                    &&& share.wf()
                    &&& share.index() == index
                    &&& share.state() == WorkerState::Idle
                    &&& share.next_victim() == 0
                    &&& share.own().same_storage(&self.buffers()[index as int])
                    &&& share.peers().len() == self.buffers().len() - 1
                    &&& forall|k: int|
                        0 <= k < share.peers().len() ==> (#[trigger] share.peers()[
                            k
                        ]).buffer().same_storage(
                            &self.buffers()[ring_slot(
                                index as int,
                                k + 1,
                                self.buffers().len() as int,
                            )],
                        )
                },
                None => false,
            },
    {
        let threads = self.buffers.len();
        if index >= threads {
            return None;
        }
        let own = self.buffers[index].duplicate();
        let mut peers: Vec<Stealer> = Vec::new();
        let mut at = index;
        let mut made: usize = 0;
        while made + 1 < threads
            invariant
                threads == self.buffers.len(),
                index < threads,
                at < threads,
                made < threads,
                at == ring_slot(index as int, made as int, threads as int),
                peers.len() == made,
                forall|k: int|
                    0 <= k < made ==> (#[trigger] peers[k]).buffer().same_storage(
                        &self.buffers[ring_slot(index as int, k + 1, threads as int)],
                    ),
            decreases threads - made,
        {
            at = if at + 1 == threads {
                0
            } else {
                at + 1
            };
            peers.push(self.buffers[at].stealer());
            made = made + 1;
        }
        Some(Worker::new(index, own, peers))
    }
}

} // verus!
