//! What the engine knows of the machine and of its command line, as far as
//! the job system reads it.

use vstd::prelude::*;

verus! {

/// What the command line asked for.
#[derive(Clone, Copy, Debug, PartialEq, Eq, Structural)]
pub struct ArgsInfo {
    /// The number of threads that the job system is to run on.
    pub workers: usize,
}

/// What the machine offers.
#[derive(Clone, Copy, Debug, PartialEq, Eq, Structural)]
pub struct CpuInfo {
    /// The number of logical cores.
    pub cpu_count: usize,
}

/// The application's view of its surroundings.
#[derive(Clone, Copy, Debug, PartialEq, Eq, Structural)]
pub struct AppInfo {
    pub args: ArgsInfo,
    pub cpu: CpuInfo,
}

} // verus!
