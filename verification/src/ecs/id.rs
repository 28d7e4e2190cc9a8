//! Where a game object lives in a scene, and which of the objects that
//! lived there is meant.

use vstd::prelude::*;

verus! {

/// The pool of a game object.
#[derive(Debug, Clone, Copy, PartialEq, Eq, Structural)]
pub enum GameObjectKind {
    /// The pool of objects that move.
    Movable,
    /// One of the chunks of objects that stay where they are.
    Static { chunk: usize },
}

/// A place in a pool.
#[derive(Debug, Clone, Copy, PartialEq, Eq, Structural)]
pub struct GameObjectId {
    pub kind: GameObjectKind,
    pub index: usize,
}

/// A place in a pool together with the generation of the object meant: a
/// place is used again after its object was destroyed, with the next
/// generation.
#[derive(Debug, Clone, Copy, PartialEq, Eq, Structural)]
pub struct GameObjectHandle {
    pub id: GameObjectId,
    pub generation: usize,
}

} // verus!
