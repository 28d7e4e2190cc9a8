//! The settings of the job system.

use vstd::prelude::*;
use crate::info::AppInfo;

verus! {

/// How many threads the job system is asked to run on, and whether that
/// was changed since the last reset.
#[derive(Clone, Copy, Debug, PartialEq, Eq, Structural)]
pub struct JobSettings {
    changed: bool,
    workers: usize,
}

impl Default for JobSettings {
    /// Unchanged, with no worker asked for.
    fn default() -> (settings: JobSettings)
        ensures
            !settings.changed(),
            settings.workers() == 0,
    {
        JobSettings { changed: false, workers: 0 }
    }
}

impl JobSettings {
    /// Whether the settings changed since the last reset.
    pub closed spec fn spec_changed(&self) -> bool {
        self.changed
    }

    /// The number of threads asked for.
    pub closed spec fn spec_workers(&self) -> usize {
        self.workers
    }

    /// The settings that `app_info` gives.
    pub fn new(app_info: &AppInfo) -> (settings: JobSettings)
        ensures
            !settings.changed(),
            settings.workers() == app_info.args.workers,
    {
        JobSettings { changed: false, workers: app_info.args.workers }
    }

    /// Whether the settings changed since the last reset.
    #[verifier::when_used_as_spec(spec_changed)]
    pub fn changed(&self) -> (changed: bool)
        ensures
            changed == self.spec_changed(),
    {
        self.changed
    }

    /// Clears the changed flag.
    pub fn reset(&mut self)
        ensures
            !final(self).changed(),
            final(self).workers() == old(self).workers(),
    {
        self.changed = false;
    }

    /// The number of threads asked for.
    #[verifier::when_used_as_spec(spec_workers)]
    pub fn workers(&self) -> (workers: usize)
        ensures
            workers == self.spec_workers(),
    {
        self.workers
    }

    /// Asks for `workers` threads. The settings count as changed if that
    /// differs from what was asked for before.
    pub fn set_workers(&mut self, workers: usize)
        ensures
            final(self).workers() == workers,
            final(self).changed() == (old(self).changed() || old(self).workers() != workers),
    {
        if self.workers != workers {
            self.workers = workers;
            self.changed = true;
        }
    }
}

} // verus!
