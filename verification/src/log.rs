//! The rules of the logger: which messages pass, and whether there is
//! anything to start.

use vstd::prelude::*;

verus! {

/// How weighty a message is; as a setting, the least weight that passes.
#[derive(Clone, Copy, Debug, PartialEq, Eq, Structural)]
pub enum LogLevel {
    Trace,
    Debug,
    Info,
    Warning,
    Error,
    Fatal,
    /// As a setting: nothing passes.
    Off,
}

impl LogLevel {
    /// The place of the level in the order from `Trace` to `Off`.
    pub open spec fn spec_rank(self) -> u8 {
        match self {
            LogLevel::Trace => 0,
            LogLevel::Debug => 1,
            LogLevel::Info => 2,
            LogLevel::Warning => 3,
            LogLevel::Error => 4,
            LogLevel::Fatal => 5,
            LogLevel::Off => 6,
        }
    }

    /// The place of the level in the order from `Trace` to `Off`.
    #[verifier::when_used_as_spec(spec_rank)]
    pub fn rank(self) -> (rank: u8)
        ensures
            rank == self.spec_rank(),
    {
        match self {
            LogLevel::Trace => 0,
            LogLevel::Debug => 1,
            LogLevel::Info => 2,
            LogLevel::Warning => 3,
            LogLevel::Error => 4,
            LogLevel::Fatal => 5,
            LogLevel::Off => 6,
        }
    }
}

/// Whether a message of the weight `priority` passes a logger set to
/// `log_level`: it does if it weighs no less.
pub fn passes(priority: LogLevel, log_level: LogLevel) -> (passes: bool)
    ensures
        passes <==> priority.rank() >= log_level.rank(),
{
    priority.rank() >= log_level.rank()
}

/// A logger set to `Off` passes no message that has a weight, and one set
/// to `Trace` passes all.
pub proof fn lemma_passes_at_the_ends(priority: LogLevel)
    ensures
        priority != LogLevel::Off ==> priority.rank() < LogLevel::Off.rank(),
        priority.rank() >= LogLevel::Trace.rank(),
{
}

/// Stands for a running logger. Whoever holds it keeps the logger alive,
/// and giving it up shuts the logger down.
#[derive(Debug)]
pub struct LogGuard;

impl LogGuard {
    /// The guard of a logger that is worth starting: one that passes some
    /// message and has somewhere to write to. There is none for a logger set
    /// to `Off` or without appenders.
    pub fn for_logger(log_level: LogLevel, appenders: usize) -> (guard: Option<LogGuard>)
        ensures
            guard is Some <==> log_level != LogLevel::Off && appenders > 0,
    {
        match log_level {
            LogLevel::Off => None,
            _ => if appenders == 0 {
                None
            } else {
                Some(LogGuard)
            },
        }
    }
}

} // verus!
