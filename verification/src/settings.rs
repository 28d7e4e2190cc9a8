//! The engine's settings and the flags that say whether they have changed
//! and whether they are to be saved.

pub mod job_settings;

use vstd::prelude::*;
use crate::info::AppInfo;
use crate::settings::job_settings::JobSettings;

verus! {

/// All settings, by subsystem.
pub struct Settings {
    changed: bool,
    save_requested: bool,
    job: JobSettings,
}

impl Clone for Settings {
    /// The same flags and the same job settings.
    fn clone(&self) -> (copy: Settings)
        ensures
            copy.own_changed() == self.own_changed(),
            copy.save_requested() == self.save_requested(),
            *copy.job() == *self.job(),
    {
        Settings { changed: self.changed, save_requested: self.save_requested, job: self.job }
    }
}

impl Default for Settings {
    /// Nothing changed, no save requested, default job settings.
    fn default() -> (settings: Settings)
        ensures
            !settings.changed(),
            !settings.save_requested(),
            settings.job().workers() == 0,
    {
        Settings { changed: false, save_requested: false, job: JobSettings::default() }
    }
}

impl Settings {
    /// Whether these settings themselves are flagged as changed, the
    /// subsystems aside.
    pub closed spec fn own_changed(&self) -> bool {
        self.changed
    }

    /// Whether a save is pending.
    pub closed spec fn spec_save_requested(&self) -> bool {
        self.save_requested
    }

    /// The job settings.
    pub closed spec fn spec_job(&self) -> &JobSettings {
        &self.job
    }

    /// Whether anything changed, here or in a subsystem.
    pub open spec fn spec_changed(&self) -> bool {
        self.own_changed() || self.spec_job().changed()
    }

    /// Settings as the application's surroundings give them: nothing is
    /// changed and no save is pending.
    pub fn new(app_info: &AppInfo) -> (settings: Settings)
        ensures
            !settings.changed(),
            !settings.save_requested(),
            settings.job().workers() == app_info.args.workers,
    {
        Settings { changed: false, save_requested: false, job: JobSettings::new(app_info) }
    }

    /// Whether anything changed, here or in a subsystem.
    #[verifier::when_used_as_spec(spec_changed)]
    pub fn changed(&self) -> (changed: bool)
        ensures
            changed == self.spec_changed(),
    {
        self.changed || self.job.changed()
    }

    /// Ends a round of changes. A pending save request turns into the
    /// changed flag, which otherwise stays as it is; the subsystems' flags
    /// are cleared.
    pub fn reset(&mut self)
        ensures
            final(self).own_changed() == (old(self).own_changed() || old(self).save_requested()),
            !final(self).save_requested(),
            !final(self).job().changed(),
            final(self).job().workers() == old(self).job().workers(),
            final(self).changed() == (old(self).own_changed() || old(self).save_requested()),
    {
        if self.save_requested {
            self.changed = true;
            self.save_requested = false;
        }
        self.job.reset();
    }

    /// Whether a save is pending.
    #[verifier::when_used_as_spec(spec_save_requested)]
    pub fn save_requested(&self) -> (requested: bool)
        ensures
            requested == self.spec_save_requested(),
    {
        self.save_requested
    }

    /// Asks for a save, which also counts as a change.
    pub fn request_save(&mut self)
        ensures
            final(self).own_changed(),
            final(self).save_requested(),
            final(self).changed(),
            *final(self).job() == *old(self).job(),
    {
        self.changed = true;
        self.save_requested = true;
    }

    /// The job settings.
    #[verifier::when_used_as_spec(spec_job)]
    pub fn job(&self) -> (job: &JobSettings)
        ensures
            job == self.spec_job(),
    {
        &self.job
    }

    /// The job settings, to change them. The two flags stay as they are.
    pub fn job_mut(&mut self) -> (job: &mut JobSettings)
        ensures
            *job == *old(self).job(),
            *final(self).job() == *final(job),
            final(self).own_changed() == old(self).own_changed(),
            final(self).save_requested() == old(self).save_requested(),
    {
        &mut self.job
    }
}

} // verus!
