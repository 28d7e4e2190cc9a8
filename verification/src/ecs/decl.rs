//! The kinds of things that live in a scene.

use vstd::prelude::*;

verus! {

/// Tells the types of scene objects apart.
#[derive(Debug, Clone, Copy, PartialEq, Eq, Structural)]
pub enum EcsTypeId {
    GameObject,
    MeshComponent,
    ScriptComponent,
}

} // verus!
