//! A game object, as far as the scene reads it.

use vstd::prelude::*;
use crate::ecs::id::GameObjectHandle;
use crate::ptr::{StrongPtr, WeakPtr};

verus! {

/// What a place in a pool holds: the handle of the object that lives or
/// lived there, and whether it lives.
#[derive(Debug, Clone, Copy, PartialEq, Eq, Structural)]
pub struct GameObject {
    handle: GameObjectHandle,
    is_alive: bool,
}

/// The owner of a game object: the scene.
pub type GameObjectStrongPtr = StrongPtr<GameObject>;

/// What the scene hands out for a game object.
pub type GameObjectWeakPtr = WeakPtr<GameObject>;

impl GameObject {
    /// The handle of this object.
    pub closed spec fn spec_handle(&self) -> GameObjectHandle {
        self.handle
    }

    /// Whether this object lives.
    pub closed spec fn spec_is_alive(&self) -> bool {
        self.is_alive
    }

    /// A game object with the given handle.
    pub fn new(handle: GameObjectHandle, is_alive: bool) -> (object: GameObject)
        ensures
            object.handle() == handle,
            object.is_alive() == is_alive,
    {
        GameObject { handle, is_alive }
    }

    /// The handle of this object.
    #[verifier::when_used_as_spec(spec_handle)]
    pub fn handle(&self) -> (handle: GameObjectHandle)
        ensures
            handle == self.spec_handle(),
    {
        self.handle
    }

    /// Whether this object lives.
    #[verifier::when_used_as_spec(spec_is_alive)]
    pub fn is_alive(&self) -> (alive: bool)
        ensures
            alive == self.spec_is_alive(),
    {
        self.is_alive
    }
}

} // verus!
