//! Input state that the game loop reads.

pub mod buttons;
