//! The scene: pools of game objects, found again by handle.

pub mod decl;
pub mod game_object;
pub mod id;
pub mod scene;
