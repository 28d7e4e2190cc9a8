//! A job: a one-shot unit of deferred computation without arguments.

use vstd::prelude::*;

verus! {

/// What a job wraps: a computation that can be run once, from a box, on
/// any thread, and that can wait in a buffer which many threads look into.
pub trait Work: Send + Sync {
    /// Whether the computation may be started.
    spec fn ready(&self) -> bool;

    /// What holds once the computation has returned.
    spec fn finished(&self) -> bool;

    /// Runs the computation, consuming it.
    fn run(self: Box<Self>)
        requires
            self.ready(),
        ensures
            self.finished(),
    ;
}

impl<F: FnOnce() + Send + Sync> Work for F {
    open spec fn ready(&self) -> bool {
        call_requires(*self, ())
    }

    open spec fn finished(&self) -> bool {
        call_ensures(*self, (), ())
    }

    fn run(self: Box<Self>) {
        let work: F = *self;
        work()
    }
}

/// A one-shot job. It owns its type-erased payload on the heap; invoking it
/// consumes it, so a job runs at most once.
pub struct Job {
    work: Box<dyn Work>,
}

impl Job {
    /// Every job that exists can be invoked.
    #[verifier::type_invariant]
    spec fn runnable(&self) -> bool {
        self.work.ready()
    }

    /// The postcondition of the wrapped computation.
    pub closed spec fn completed(&self) -> bool {
        self.work.finished()
    }

    /// Wraps a computation without arguments.
    pub fn new<F: FnOnce() + Send + Sync + 'static>(work: F) -> (job: Job)
        requires
            call_requires(work, ()),
        ensures
            job.completed() <==> call_ensures(work, (), ()),
    {
        Job { work: Box::new(work) }
    }

    /// Runs the wrapped computation once and gives the job up.
    pub fn invoke(self)
        ensures
            self.completed(),
    {
        proof {
            use_type_invariant(&self);
        }
        self.work.run()
    }
}

} // verus!
