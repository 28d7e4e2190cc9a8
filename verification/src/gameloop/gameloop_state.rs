//! How a frame of the game loop ended.

use vstd::prelude::*;

verus! {

/// What a frame asks of the loop that ran it.
pub enum GameloopState {
    /// Run the next frame.
    WantsToContinue,
    /// Leave the loop.
    WantsToQuit,
    /// Leave the loop and start the engine again.
    WantsToRestart,
    /// The frame failed, for the reason given.
    Error(String),
}

/// What the loop does after a frame.
pub enum LoopStep {
    /// Run the next frame.
    Continue,
    /// Return, with success or with the error of the frame.
    Return(Result<(), String>),
}

impl GameloopState {
    /// What the loop does after a frame that ended like this: it goes on
    /// while frames want to continue, returns `Ok` when one wants to quit or
    /// to restart, and returns the error of a frame that failed.
    pub fn step(self) -> (step: LoopStep)
        ensures
            step == match self {
                GameloopState::WantsToContinue => LoopStep::Continue,
                GameloopState::WantsToQuit => LoopStep::Return(Ok(())),
                GameloopState::WantsToRestart => LoopStep::Return(Ok(())),
                GameloopState::Error(error) => LoopStep::Return(Err(error)),
            },
    {
        match self {
            GameloopState::WantsToContinue => LoopStep::Continue,
            GameloopState::WantsToQuit => LoopStep::Return(Ok(())),
            GameloopState::WantsToRestart => LoopStep::Return(Ok(())),
            GameloopState::Error(error) => LoopStep::Return(Err(error)),
        }
    }
}

} // verus!
