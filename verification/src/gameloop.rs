//! What one turn of the game loop decides.

pub mod gameloop_state;
pub mod logic_frame;
