use ris_engine::ecs::decl::EcsTypeId;
use ris_engine::ecs::game_object::GameObject;
use ris_engine::ecs::id::GameObjectHandle;
use ris_engine::ecs::id::GameObjectId;
use ris_engine::ecs::id::GameObjectKind;
use ris_engine::ecs::scene::Scene;
use ris_engine::ecs::scene::SceneCreateInfo;
use ris_engine::ecs::scene::SceneError;
use ris_engine::ptr::DanglingAccess;
use ris_engine::ptr::read_checked;
use ris_engine::ptr::InvalidCast;
use ris_engine::ptr::Liveness;
use ris_engine::ptr::StrongPtr;

fn handle(kind: GameObjectKind, index: usize, generation: usize) -> GameObjectHandle {
    GameObjectHandle {
        id: GameObjectId { kind, index },
        generation,
    }
}

fn small_scene() -> Scene {
    Scene::new(SceneCreateInfo {
        movables: 3,
        static_chunks: 2,
        statics_per_chunk: 4,
    })
}

#[test]
fn strong_ptr_reads_its_value() {
    let strong = StrongPtr::new(42);
    assert_eq!(*strong.get(), 42);

    let strong: StrongPtr<u8> = StrongPtr::default();
    assert_eq!(*strong.get(), 0);
}

#[test]
fn weak_ptr_reads_while_owner_lives() {
    let strong = StrongPtr::new(String::from("value"));
    let weak = strong.to_weak();
    let copy = weak.clone();

    assert!(weak.is_alive());
    assert_eq!(weak.get(), Ok(&String::from("value")));
    assert_eq!(copy.get(), Ok(&String::from("value")));

    strong.release();

    assert!(!weak.is_alive());
    assert!(!copy.is_alive());
    assert_eq!(weak.get(), Err(DanglingAccess));
    assert_eq!(copy.get(), Err(DanglingAccess));
    assert_eq!(weak.clone().get(), Err(DanglingAccess));
}

#[test]
fn weak_ptrs_of_different_owners_are_independent() {
    let first = StrongPtr::new(1);
    let second = StrongPtr::new(2);
    let weak_first = first.to_weak();
    let weak_second = second.to_weak();

    first.release();

    assert_eq!(weak_first.get(), Err(DanglingAccess));
    assert_eq!(weak_second.get(), Ok(&2));
}

#[test]
fn invalid_cast_is_one_value() {
    assert_eq!(InvalidCast, InvalidCast);
}

#[test]
fn ecs_type_ids_differ() {
    assert_ne!(EcsTypeId::GameObject, EcsTypeId::MeshComponent);
    assert_ne!(EcsTypeId::MeshComponent, EcsTypeId::ScriptComponent);
    assert_ne!(EcsTypeId::GameObject, EcsTypeId::ScriptComponent);
}

#[test]
fn scene_create_info_has_defaults() {
    let info = SceneCreateInfo::default();
    assert_eq!(info.movables, 1024);
    assert_eq!(info.static_chunks, 8);
    assert_eq!(info.statics_per_chunk, 1024);
}

#[test]
fn scene_starts_without_living_objects() {
    let scene = small_scene();

    assert_eq!(scene.movables.len(), 3);
    assert_eq!(scene.statics.len(), 2);
    assert_eq!(scene.statics[0].len(), 4);
    assert_eq!(scene.statics[1].len(), 4);

    for (index, ptr) in scene.movables.iter().enumerate() {
        assert_eq!(ptr.get().handle(), handle(GameObjectKind::Movable, index, 0));
        assert!(!ptr.get().is_alive());
    }
    for (chunk, pool) in scene.statics.iter().enumerate() {
        for (index, ptr) in pool.iter().enumerate() {
            assert_eq!(
                ptr.get().handle(),
                handle(GameObjectKind::Static { chunk }, index, 0)
            );
            assert!(!ptr.get().is_alive());
        }
    }

    assert_eq!(scene.count_available_game_objects(GameObjectKind::Movable), 0);
    assert_eq!(
        scene.count_available_game_objects(GameObjectKind::Static { chunk: 1 }),
        0
    );
}

#[test]
fn scene_counts_living_objects() {
    let mut scene = small_scene();
    let movable = GameObjectKind::Movable;
    let chunk = GameObjectKind::Static { chunk: 1 };

    scene.movables[0] = StrongPtr::new(GameObject::new(handle(movable, 0, 0), true));
    scene.movables[2] = StrongPtr::new(GameObject::new(handle(movable, 2, 5), true));
    scene.statics[1][3] = StrongPtr::new(GameObject::new(handle(chunk, 3, 1), true));

    assert_eq!(scene.count_available_game_objects(movable), 2);
    assert_eq!(scene.count_available_game_objects(chunk), 1);
    assert_eq!(
        scene.count_available_game_objects(GameObjectKind::Static { chunk: 0 }),
        0
    );
    assert_eq!(
        scene.count_available_game_objects(GameObjectKind::Static { chunk: 2 }),
        0
    );
}

#[test]
fn scene_resolves_living_objects_of_the_right_generation() {
    let mut scene = small_scene();
    let movable = GameObjectKind::Movable;
    let chunk = GameObjectKind::Static { chunk: 0 };
    scene.movables[1] = StrongPtr::new(GameObject::new(handle(movable, 1, 3), true));
    scene.statics[0][2] = StrongPtr::new(GameObject::new(handle(chunk, 2, 0), true));

    let resolved = scene.resolve(handle(movable, 1, 3)).ok().unwrap();
    assert_eq!(resolved.get().ok().unwrap().handle(), handle(movable, 1, 3));
    let resolved = scene.resolve(handle(chunk, 2, 0)).ok().unwrap();
    assert!(resolved.get().ok().unwrap().is_alive());

    // another generation
    assert_eq!(
        scene.resolve(handle(movable, 1, 2)).err(),
        Some(SceneError::GameObjectIsDestroyed)
    );
    // not alive
    assert_eq!(
        scene.resolve(handle(movable, 0, 0)).err(),
        Some(SceneError::GameObjectIsDestroyed)
    );
    // no such place
    assert_eq!(
        scene.resolve(handle(movable, 3, 0)).err(),
        Some(SceneError::IndexOutOfBounds)
    );
    assert_eq!(
        scene.resolve(handle(GameObjectKind::Static { chunk: 2 }, 0, 0)).err(),
        Some(SceneError::IndexOutOfBounds)
    );
    assert_eq!(
        scene.resolve(handle(chunk, 4, 0)).err(),
        Some(SceneError::IndexOutOfBounds)
    );
}

#[test]
fn resolved_pointer_dies_with_its_object() {
    let mut scene = small_scene();
    let movable = GameObjectKind::Movable;
    scene.movables[1] = StrongPtr::new(GameObject::new(handle(movable, 1, 0), true));
    let resolved = scene.resolve(handle(movable, 1, 0)).ok().unwrap();
    assert!(resolved.is_alive());

    let owner = std::mem::replace(
        &mut scene.movables[1],
        StrongPtr::new(GameObject::new(handle(movable, 1, 1), false)),
    );
    owner.release();

    assert!(!resolved.is_alive());
    assert!(resolved.get().is_err());
}

#[test]
fn scene_errors_have_messages() {
    assert_eq!(
        SceneError::GameObjectIsDestroyed.message(),
        "game object was destroyed"
    );
    assert_eq!(
        SceneError::ScaleMustBePositive.message(),
        "scale must be larger than 0"
    );
    assert_eq!(
        SceneError::CircularHierarchy.message(),
        "operation would have caused a circular hierarchy"
    );
    assert_eq!(SceneError::IndexOutOfBounds.message(), "index was out of bounds");
    assert_eq!(SceneError::OutOfMemory.message(), "out of memory");
}

#[test]
fn liveness_ends_for_good() {
    let mut liveness = Liveness::new();
    assert!(liveness.is_alive());
    assert_eq!(liveness.read(&5), Ok(&5));

    liveness.give_up();
    assert!(!liveness.is_alive());
    assert_eq!(liveness.read(&5), Err(DanglingAccess));

    liveness.give_up();
    assert!(!liveness.is_alive());
    assert_eq!(liveness.read(&5), Err(DanglingAccess));
}

#[test]
fn checked_read_follows_the_owner() {
    assert_eq!(read_checked(true, &7), Ok(&7));
    assert_eq!(read_checked(false, &7), Err(DanglingAccess));
    assert_eq!(
        read_checked(true, &String::from("kept")),
        Ok(&String::from("kept"))
    );
}

#[test]
fn weak_ptr_and_its_copy_read_five_until_the_owner_is_released() {
    let strong = StrongPtr::new(5);
    let weak = strong.to_weak();
    let copy = weak.clone();

    assert_eq!(*strong.get(), 5);
    assert_eq!(weak.get(), Ok(&5));
    assert_eq!(copy.get(), Ok(&5));

    strong.release();

    assert_eq!(weak.get(), Err(DanglingAccess));
    assert_eq!(copy.get(), Err(DanglingAccess));
    assert_eq!(weak.get(), Err(DanglingAccess));
}
