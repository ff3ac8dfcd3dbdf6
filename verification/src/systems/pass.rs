//! One pass of a system over the world: every entity is read, and those
//! that the system applies to are written back.

use vstd::prelude::*;
use hecs::World;
use crate::world::{
    drop_animation, drop_intent, entities, lists, put_animation, put_camera, put_intent,
    put_orientation, put_position, snapshot, EntityState,
};

verus! {

/// Whether `after` holds the entities of `before`, each taken through `step`.
pub open spec fn each(
    before: Map<u64, EntityState>,
    after: Map<u64, EntityState>,
    step: spec_fn(EntityState) -> EntityState,
) -> bool {
    &&& after.dom() == before.dom()
    &&& forall|id: u64| before.dom().contains(id) ==> #[trigger] after[id] == step(before[id])
}

/// Whether some entity of `all` meets `wanted`.
pub open spec fn some(all: Map<u64, EntityState>, wanted: spec_fn(EntityState) -> bool) -> bool {
    exists|id: u64| all.dom().contains(id) && wanted(#[trigger] all[id])
}

/// Writes `after` over the attributes of the entity `id`.
pub(crate) fn store(world: &mut World, id: u64, after: &EntityState)
    requires
        entities(*old(world)).dom().contains(id),
        entities(*old(world))[id].same_frame(*after),
    ensures
        entities(*final(world)) == entities(*old(world)).insert(id, *after),
{
    if let Some(position) = after.position {
        put_position(world, id, position);
    }
    if let Some(orientation) = after.orientation {
        put_orientation(world, id, orientation);
    }
    if let Some(camera) = after.camera {
        put_camera(world, id, camera);
    }
    match after.intent {
        Some(intent) => put_intent(world, id, intent),
        None => drop_intent(world, id),
    }
    match after.animation {
        Some(animation) => put_animation(world, id, animation),
        None => drop_animation(world, id),
    }
    assert(entities(*world) =~= entities(*old(world)).insert(id, *after));
}

/// Takes every entity of the world through `step`. `f` computes the step:
/// it gives the new state of an entity that the step changes, and nothing
/// for one that the step leaves alone.
pub(crate) fn for_each<F: Fn(&EntityState) -> Option<EntityState>>(
    world: &mut World,
    f: F,
    Ghost(step): Ghost<spec_fn(EntityState) -> EntityState>,
)
    requires
        step(EntityState::vacant()) == EntityState::vacant(),
        forall|s: EntityState| call_requires(f, (&s,)),
        forall|s: EntityState, out: Option<EntityState>| #[trigger]
            call_ensures(f, (&s,), out) ==> match out {
                Some(next) => next == step(s) && s.same_frame(next),
                None => step(s) == s,
            },
    ensures
        each(entities(*old(world)), entities(*final(world)), step),
{
    let listed = snapshot(world);
    let ghost before = entities(*world);
    let mut k: usize = 0;
    while k < listed.len()
        invariant
            k <= listed.len(),
            lists(listed@, before),
            forall|s: EntityState| call_requires(f, (&s,)),
            forall|s: EntityState, out: Option<EntityState>| #[trigger]
                call_ensures(f, (&s,), out) ==> match out {
                    Some(next) => next == step(s) && s.same_frame(next),
                    None => step(s) == s,
                },
            entities(*world).dom() == before.dom(),
            forall|j: int|
                0 <= j < k ==> entities(*world)[(#[trigger] listed@[j]).0] == step(before[listed@[j].0]),
            forall|j: int|
                k <= j < listed.len() ==> entities(*world)[(#[trigger] listed@[j]).0]
                    == before[listed@[j].0],
            forall|id: u64|
                before.dom().contains(id) && (forall|j: int|
                    0 <= j < listed.len() ==> (#[trigger] listed@[j]).0 != id) ==> #[trigger] entities(
                    *world,
                )[id] == before[id],
        decreases listed.len() - k,
    {
        let id = listed[k].0;
        let state = listed[k].1;
        let ghost earlier = entities(*world);
        assert(listed@[k as int].0 == id);
        match f(&state) {
            Some(next) => {
                store(world, id, &next);
            },
            None => {},
        }
        assert(forall|j: int| 0 <= j < listed.len() && j != k ==> (#[trigger] listed@[j]).0 != id);
        k += 1;
    }
    assert forall|id: u64| before.dom().contains(id) implies #[trigger] entities(*world)[id]
        == step(before[id]) by {
        if before[id] != EntityState::vacant() {
            let j = choose|j: int| 0 <= j < listed.len() && (#[trigger] listed@[j]).0 == id;
            assert(entities(*world)[listed@[j].0] == step(before[listed@[j].0]));
        } else if exists|j: int| 0 <= j < listed.len() && (#[trigger] listed@[j]).0 == id {
            let j = choose|j: int| 0 <= j < listed.len() && (#[trigger] listed@[j]).0 == id;
            assert(entities(*world)[listed@[j].0] == step(before[listed@[j].0]));
        }
    }
}

/// Whether some entity of the world meets `wanted`, which `f` computes.
pub(crate) fn any<F: Fn(&EntityState) -> bool>(
    world: &mut World,
    f: F,
    Ghost(wanted): Ghost<spec_fn(EntityState) -> bool>,
) -> (found: bool)
    requires
        !wanted(EntityState::vacant()),
        forall|s: EntityState| call_requires(f, (&s,)),
        forall|s: EntityState, out: bool| #[trigger]
            call_ensures(f, (&s,), out) ==> out == wanted(s),
    ensures
        entities(*final(world)) == entities(*old(world)),
        found == some(entities(*old(world)), wanted),
{
    let listed = snapshot(world);
    let ghost all = entities(*world);
    let mut k: usize = 0;
    while k < listed.len()
        invariant
            k <= listed.len(),
            lists(listed@, all),
            forall|s: EntityState| call_requires(f, (&s,)),
            forall|s: EntityState, out: bool| #[trigger]
                call_ensures(f, (&s,), out) ==> out == wanted(s),
            forall|j: int| 0 <= j < k ==> !wanted((#[trigger] listed@[j]).1),
            entities(*world) == all,
            all == entities(*old(world)),
        decreases listed.len() - k,
    {
        let state = listed[k].1;
        if f(&state) {
            assert(all.dom().contains(listed@[k as int].0) && wanted(all[listed@[k as int].0]));
            return true;
        }
        k += 1;
    }
    assert forall|id: u64| all.dom().contains(id) implies !wanted(#[trigger] all[id]) by {
        if all[id] != EntityState::vacant() {
            let j = choose|j: int| 0 <= j < listed.len() && (#[trigger] listed@[j]).0 == id;
            assert(!wanted(listed@[j].1));
        }
    }
    false
}

} // verus!
