//! Rules of the renderer that need no graphics card to state.

pub mod image;
pub mod util;
