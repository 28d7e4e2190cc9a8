//! The recoverable outcomes of racing on a job buffer.

use vstd::prelude::*;
use crate::job::Job;

verus! {

/// A push met a buffer at capacity. The job comes back to the caller.
pub struct BufferFull {
    pub not_pushed: Job,
}

/// A pop or a steal found nothing to take.
#[derive(Clone, Copy, Debug, PartialEq, Eq, Structural)]
pub struct BufferEmpty;

} // verus!
