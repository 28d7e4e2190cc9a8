//! The scene owns every game object, in one pool of movable objects and in
//! chunks of static ones, and resolves handles to them.

use vstd::prelude::*;
use crate::ecs::game_object::{GameObject, GameObjectStrongPtr, GameObjectWeakPtr};
use crate::ecs::id::{GameObjectHandle, GameObjectId, GameObjectKind};
use crate::ptr::StrongPtr;

verus! {

pub const DEFAULT_MOVABLES: usize = 1024;

pub const DEFAULT_STATIC_CHUNKS: usize = 8;

pub const DEFAULT_STATICS_PER_CHUNK: usize = 1024;

/// Why the scene refused.
#[derive(Debug, Clone, Copy, PartialEq, Eq, Structural)]
pub enum SceneError {
    GameObjectIsDestroyed,
    ScaleMustBePositive,
    CircularHierarchy,
    IndexOutOfBounds,
    OutOfMemory,
}

impl SceneError {
    /// The error in words.
    pub fn message(&self) -> (message: &'static str)
        ensures
            message@ == match *self {
                SceneError::GameObjectIsDestroyed => "game object was destroyed"@,
                SceneError::ScaleMustBePositive => "scale must be larger than 0"@,
                SceneError::CircularHierarchy => "operation would have caused a circular hierarchy"@,
                SceneError::IndexOutOfBounds => "index was out of bounds"@,
                SceneError::OutOfMemory => "out of memory"@,
            },
    {
        match *self {
            SceneError::GameObjectIsDestroyed => "game object was destroyed",
            SceneError::ScaleMustBePositive => "scale must be larger than 0",
            SceneError::CircularHierarchy => "operation would have caused a circular hierarchy",
            SceneError::IndexOutOfBounds => "index was out of bounds",
            SceneError::OutOfMemory => "out of memory",
        }
    }
}

pub type SceneResult<T> = Result<T, SceneError>;

/// The sizes of the pools of a scene.
#[derive(Debug, Clone, Copy, PartialEq, Eq, Structural)]
pub struct SceneCreateInfo {
    pub movables: usize,
    pub static_chunks: usize,
    pub statics_per_chunk: usize,
}

impl Default for SceneCreateInfo {
    fn default() -> (info: SceneCreateInfo)
        ensures
            info.movables == DEFAULT_MOVABLES,
            info.static_chunks == DEFAULT_STATIC_CHUNKS,
            info.statics_per_chunk == DEFAULT_STATICS_PER_CHUNK,
    {
        SceneCreateInfo {
            movables: DEFAULT_MOVABLES,
            static_chunks: DEFAULT_STATIC_CHUNKS,
            statics_per_chunk: DEFAULT_STATICS_PER_CHUNK,
        }
    }
}

/// The pools of game objects.
pub struct Scene {
    pub movables: Vec<GameObjectStrongPtr>,
    pub statics: Vec<Vec<GameObjectStrongPtr>>,
}

/// The handle of the first object to live at `index` of the pool `kind`.
pub open spec fn first_handle(kind: GameObjectKind, index: usize) -> GameObjectHandle {
    GameObjectHandle { id: GameObjectId { kind, index }, generation: 0 }
}

/// A pool as `Scene::new` makes it: `len` places that hold no living
/// object yet, each with the handle of its first generation.
pub open spec fn fresh_pool(
    pool: Seq<GameObjectStrongPtr>,
    kind: GameObjectKind,
    len: usize,
) -> bool {
    &&& pool.len() == len
    &&& forall|i: int|
        0 <= i < len ==> (#[trigger] pool[i]).value().handle() == first_handle(kind, i as usize)
            && !pool[i].value().is_alive()
}

/// The number of living objects in a pool.
pub open spec fn alive_count(pool: Seq<GameObjectStrongPtr>) -> nat
    decreases pool.len(),
{
    if pool.len() == 0 {
        0
    } else {
        alive_count(pool.drop_last()) + if pool.last().value().is_alive() {
            1nat
        } else {
            0nat
        }
    }
}

/// A pool holds no more living objects than it has places.
pub proof fn lemma_alive_count_bounded(pool: Seq<GameObjectStrongPtr>)
    ensures
        alive_count(pool) <= pool.len(),
    decreases pool.len(),
{
    if pool.len() > 0 {
        lemma_alive_count_bounded(pool.drop_last());
    }
}

/// A pool as `Scene::new` makes it holds no living object.
pub proof fn lemma_fresh_pool_empty(
    pool: Seq<GameObjectStrongPtr>,
    kind: GameObjectKind,
    len: usize,
)
    requires
        fresh_pool(pool, kind, len),
    ensures
        alive_count(pool) == 0,
    decreases len,
{
    if len > 0 {
        let shorter = (len - 1) as usize;
        lemma_fresh_pool_empty(pool.drop_last(), kind, shorter);
    }
}

/// A pool of `len` places for the kind `kind`.
fn new_pool(kind: GameObjectKind, len: usize) -> (pool: Vec<GameObjectStrongPtr>)
    ensures
        fresh_pool(pool@, kind, len),
{
    let mut pool: Vec<GameObjectStrongPtr> = Vec::new();
    let mut index: usize = 0;
    while index < len
        invariant
            index <= len,
            fresh_pool(pool@, kind, index),
        decreases len - index,
    {
        let handle = GameObjectHandle { id: GameObjectId { kind, index }, generation: 0 };
        let game_object = GameObject::new(handle, false);
        pool.push(StrongPtr::new(game_object));
        index = index + 1;
    }
    pool
}

impl Scene {
    /// The pool that `kind` names, if the scene has it.
    pub open spec fn pool(&self, kind: GameObjectKind) -> Option<Seq<GameObjectStrongPtr>> {
        match kind {
            GameObjectKind::Movable => Some(self.movables@),
            GameObjectKind::Static { chunk } => if chunk < self.statics.len() {
                Some(self.statics[chunk as int]@)
            } else {
                None
            },
        }
    }

    /// The owner of the object at the place `id`, if the scene has that
    /// place.
    pub open spec fn slot(&self, id: GameObjectId) -> Option<GameObjectStrongPtr> {
        match self.pool(id.kind) {
            Some(pool) => if id.index < pool.len() {
                Some(pool[id.index as int])
            } else {
                None
            },
            None => None,
        }
    }

    /// A scene with pools of the sizes that `info` gives. No object lives
    /// in it yet.
    pub fn new(info: SceneCreateInfo) -> (scene: Scene)
        ensures
            fresh_pool(scene.movables@, GameObjectKind::Movable, info.movables),
            scene.statics.len() == info.static_chunks,
            forall|chunk: int|
                0 <= chunk < info.static_chunks ==> fresh_pool(
                    (#[trigger] scene.statics[chunk])@,
                    GameObjectKind::Static { chunk: chunk as usize },
                    info.statics_per_chunk,
                ),
    {
        let movables = new_pool(GameObjectKind::Movable, info.movables);
        let mut statics: Vec<Vec<GameObjectStrongPtr>> = Vec::new();
        let mut chunk: usize = 0;
        while chunk < info.static_chunks
            invariant
                chunk <= info.static_chunks,
                statics.len() == chunk,
                forall|c: int|
                    0 <= c < chunk ==> fresh_pool(
                        (#[trigger] statics[c])@,
                        GameObjectKind::Static { chunk: c as usize },
                        info.statics_per_chunk,
                    ),
            decreases info.static_chunks - chunk,
        {
            let pool = new_pool(GameObjectKind::Static { chunk }, info.statics_per_chunk);
            statics.push(pool);
            chunk = chunk + 1;
        }
        Scene { movables, statics }
    }

    /// A weak pointer to the object that `handle` means. It is refused
    /// with `IndexOutOfBounds` where the scene has no such place, and with
    /// `GameObjectIsDestroyed` where the object at that place does not live
    /// or is of another generation.
    pub fn resolve(&self, handle: GameObjectHandle) -> (resolved: SceneResult<GameObjectWeakPtr>)
        ensures
            match self.slot(handle.id) {
                None => resolved == Err::<GameObjectWeakPtr, SceneError>(
                    SceneError::IndexOutOfBounds,
                ),
                Some(owner) => if owner.value().is_alive() && owner.value().handle().generation
                    == handle.generation {
                    resolved matches Ok(weak) && owner.owns(&weak) && weak.value() == owner.value()
                } else {
                    resolved == Err::<GameObjectWeakPtr, SceneError>(
                        SceneError::GameObjectIsDestroyed,
                    )
                },
            },
    {
        let pool = match handle.id.kind {
            GameObjectKind::Movable => &self.movables,
            GameObjectKind::Static { chunk } => {
                if chunk >= self.statics.len() {
                    return Err(SceneError::IndexOutOfBounds);
                }
                &self.statics[chunk]
            },
        };
        if handle.id.index >= pool.len() {
            return Err(SceneError::IndexOutOfBounds);
        }
        let ptr = &pool[handle.id.index];
        let game_object = ptr.get();
        let is_alive = game_object.is_alive();
        let generation_matches = game_object.handle().generation == handle.generation;
        if is_alive && generation_matches {
            Ok(ptr.to_weak())
        } else {
            Err(SceneError::GameObjectIsDestroyed)
        }
    }

    /// The number of living objects in the pool `kind`; 0 where the scene
    /// has no such pool.
    pub fn count_available_game_objects(&self, kind: GameObjectKind) -> (count: usize)
        ensures
            count == match self.pool(kind) {
                Some(pool) => alive_count(pool),
                None => 0,
            },
    {
        let pool = match kind {
            GameObjectKind::Movable => &self.movables,
            GameObjectKind::Static { chunk } => {
                if chunk >= self.statics.len() {
                    return 0;
                }
                &self.statics[chunk]
            },
        };
        let mut count: usize = 0;
        let mut index: usize = 0;
        while index < pool.len()
            invariant
                index <= pool.len(),
                count == alive_count(pool@.take(index as int)),
                count <= index,
            decreases pool.len() - index,
        {
            proof {
                assert(pool@.take(index + 1).drop_last() =~= pool@.take(index as int));
            }
            if pool[index].get().is_alive() {
                count = count + 1;
            }
            index = index + 1;
        }
        proof {
            assert(pool@.take(index as int) =~= pool@);
        }
        count
    }
}

} // verus!
