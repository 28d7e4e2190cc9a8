//! The part of the logic frame that watches the keys for leaving the loop
//! by hand: a restart, a crash, a reload of the shaders.
//!
//! Time comes in as nanoseconds on a clock that never runs backwards.

use vstd::prelude::*;
use crate::gameloop::gameloop_state::GameloopState;

verus! {

/// How long, in seconds, the restart key or the crash key has to be held
/// down.
pub const CRASH_TIMEOUT_IN_SECS: u64 = 5;

pub const NANOS_PER_SEC: u64 = 1_000_000_000;

/// The keys that the logic frame watches.
#[derive(Clone, Copy, Debug, PartialEq, Eq, Structural)]
pub struct LogicKeys {
    /// The restart key is held.
    pub restart_held: bool,
    /// The crash key is held.
    pub crash_held: bool,
    /// The reload key went down in this frame.
    pub reload_pressed: bool,
}

/// What the logic frame writes for the frames after it.
#[derive(Clone, Copy, Debug, PartialEq, Eq, Structural)]
pub struct LogicData {
    /// The shaders are to be loaded again.
    pub new_viewport_requested: bool,
}

/// Since when each of the two keys is held.
#[derive(Clone, Copy, Debug, PartialEq, Eq, Structural)]
pub struct LogicFrame {
    restart_timestamp: u64,
    crash_timestamp: u64,
}

/// The whole seconds from `since` to `now`; none where `now` is not later.
pub open spec fn seconds_between(since: u64, now: u64) -> int {
    if now >= since {
        (now - since) / (NANOS_PER_SEC as int)
    } else {
        0
    }
}

/// Whether a key held since `since` has been held long enough at `now`.
pub open spec fn held_long_enough(since: u64, now: u64) -> bool {
    seconds_between(since, now) >= CRASH_TIMEOUT_IN_SECS
}

impl LogicFrame {
    /// The moment since which the restart key is held, or at which it was
    /// last seen released.
    pub closed spec fn restart_timestamp(&self) -> u64 {
        self.restart_timestamp
    }

    /// The moment since which the crash key is held, or at which it was
    /// last seen released.
    pub closed spec fn crash_timestamp(&self) -> u64 {
        self.crash_timestamp
    }

    /// A logic frame that has seen both keys released at `now`.
    pub fn new(now: u64) -> (frame: LogicFrame)
        ensures
            frame.restart_timestamp() == now,
            frame.crash_timestamp() == now,
    {
        LogicFrame { restart_timestamp: now, crash_timestamp: now }
    }

    /// One frame at the moment `now`.
    ///
    /// The restart key, held for the timeout, ends the frame with
    /// `WantsToRestart`; released, it moves its timestamp to `now`. The
    /// crash key is looked at next and in the same way, and ends the frame
    /// with the error "manual crash". A frame that ends in one of these two
    /// ways leaves `current` alone. Any other frame asks for a new viewport
    /// exactly if the reload key went down, and wants to continue.
    pub fn run(&mut self, current: &mut LogicData, keys: &LogicKeys, now: u64) -> (state:
        GameloopState)
        ensures
            final(self).restart_timestamp() == if keys.restart_held {
                old(self).restart_timestamp()
            } else {
                now
            },
            keys.restart_held && held_long_enough(old(self).restart_timestamp(), now) ==> {
                &&& state == GameloopState::WantsToRestart
                &&& final(self).crash_timestamp() == old(self).crash_timestamp()
                &&& *final(current) == *old(current)
            },
            !(keys.restart_held && held_long_enough(old(self).restart_timestamp(), now)) ==> {
                &&& final(self).crash_timestamp() == if keys.crash_held {
                    old(self).crash_timestamp()
                } else {
                    now
                }
                &&& if keys.crash_held && held_long_enough(old(self).crash_timestamp(), now) {
                    &&& state matches GameloopState::Error(message)
                    &&& message@ == "manual crash"@
                    &&& *final(current) == *old(current)
                } else {
                    &&& state == GameloopState::WantsToContinue
                    &&& final(current).new_viewport_requested == keys.reload_pressed
                }
            },
    {
        if keys.restart_held {
            if held_for(self.restart_timestamp, now) >= CRASH_TIMEOUT_IN_SECS {
                return GameloopState::WantsToRestart;
            }
        } else {
            self.restart_timestamp = now;
        }
        if keys.crash_held {
            if held_for(self.crash_timestamp, now) >= CRASH_TIMEOUT_IN_SECS {
                return GameloopState::Error("manual crash".to_owned());
            }
        } else {
            self.crash_timestamp = now;
        }
        current.new_viewport_requested = keys.reload_pressed;
        GameloopState::WantsToContinue
    }
}

/// The whole seconds from `since` to `now`.
pub fn held_for(since: u64, now: u64) -> (seconds: u64)
    ensures
        seconds == seconds_between(since, now),
{
    if now >= since {
        (now - since) / NANOS_PER_SEC
    } else {
        0
    }
}

} // verus!
