//! The systems of a tick, and the pipeline that runs them in their fixed
//! order.

pub mod animate;
pub mod camera;
pub mod cleanup;
pub mod collider;
pub mod input;
pub mod mover;
pub mod pass;
pub mod transition;

use vstd::prelude::*;
use hecs::World;
use crate::components::Action;
use crate::events::Event;
use crate::map::{Tile, TileMap};
use crate::scene::SceneCamera;
use crate::violation::Violation;
use crate::world::{entities, EntityState};
use animate::animate_step;
use camera::{camera_step, films, shot};
use collider::{blocked, collide_step};
use input::{input_step, select_spec};
use mover::{move_fault, move_step};
use pass::{each, some};

verus! {

/// What a tick makes of one entity before the mover runs: Input, then
/// Collider, then Animate.
pub open spec fn ready_step<M>(s: EntityState, action: Action, tiles: Seq<Tile<M>>) -> EntityState {
    animate_step(collide_step(input_step(s, action), tiles))
}

/// What a whole tick makes of one entity: Input, Collider, Animate, Mover
/// and Camera, in this order.
pub open spec fn tick_step<M>(s: EntityState, action: Action, tiles: Seq<Tile<M>>) -> EntityState {
    camera_step(move_step(ready_step(s, action, tiles)))
}

/// An entity of `after` meets `wanted` exactly when one of `before` does
/// once it is taken through `step`.
pub proof fn lemma_some_after(
    before: Map<u64, EntityState>,
    after: Map<u64, EntityState>,
    step: spec_fn(EntityState) -> EntityState,
    wanted: spec_fn(EntityState) -> bool,
)
    requires
        each(before, after, step),
    ensures
        some(after, wanted) <==> some(before, |s: EntityState| wanted(step(s))),
{
    let through = |s: EntityState| wanted(step(s));
    if some(after, wanted) {
        let id = choose|id: u64| after.dom().contains(id) && wanted(#[trigger] after[id]);
        assert(before.dom().contains(id) && through(before[id]));
    }
    if some(before, through) {
        let id = choose|id: u64| before.dom().contains(id) && through(#[trigger] before[id]);
        assert(after.dom().contains(id) && wanted(after[id]));
    }
}

/// A move onto a tile is cancelled: where, once Input has run, an entity
/// awaits a move whose target one of `tiles` occupies, the tick leaves its
/// position as it was and takes its intent; orientation, camera and tag
/// stay too, and no animation begins.
pub proof fn lemma_blocked_move_is_cancelled<M>(
    s: EntityState,
    action: Action,
    tiles: Seq<Tile<M>>,
)
    requires
        blocked(input_step(s, action), tiles),
    ensures
        tick_step(s, action, tiles) == (EntityState { intent: None, ..s }),
        tick_step(s, action, tiles).position == s.position,
        tick_step(s, action, tiles).intent is None,
{
}

/// Runs one tick: Input, Collider, Animate, Mover, Camera and Cleanup, each
/// to its end before the next begins.
///
/// A violation ends the tick where it is found. The mover finds its own
/// before it changes anything, so the world is then as Animate left it. The
/// other two are found after the world has taken the whole tick.
pub fn update<M: Copy>(
    delta: i64,
    world: &mut World,
    events: &Vec<Event>,
    map: &TileMap<M>,
    scene: &mut SceneCamera,
) -> (out: Result<(), Violation>)
    ensures
        ({
            let action = select_spec(events@, delta);
            let before = entities(*old(world));
            let after = entities(*final(world));
            if some(before, |s: EntityState| move_fault(ready_step(s, action, map.tiles@))) {
                &&& out == Err::<(), Violation>(Violation::UnexpectedAction)
                &&& each(before, after, |s: EntityState| ready_step(s, action, map.tiles@))
                &&& *final(scene) == *old(scene)
            } else if !some(after, |s: EntityState| films(s)) {
                &&& out == Err::<(), Violation>(Violation::NoCamera)
                &&& each(before, after, |s: EntityState| tick_step(s, action, map.tiles@))
                &&& *final(scene) == *old(scene)
            } else {
                &&& each(before, after, |s: EntityState| tick_step(s, action, map.tiles@))
                &&& exists|id: u64|
                    after.dom().contains(id) && films(#[trigger] after[id]) && *final(scene)
                        == shot(after[id])
                &&& out is Err <==> some(after, |s: EntityState| s.lingering())
                &&& out is Err ==> out == Err::<(), Violation>(Violation::LingeringIntent)
            }
        }),
        out is Ok ==> forall|id: u64|
            entities(*final(world)).dom().contains(id) ==> {
                let s = #[trigger] entities(*final(world))[id];
                s.intent is None || (s.intent is Some && s.animation is Some)
            },
{
    let ghost action = select_spec(events@, delta);
    let ghost before = entities(*world);

    input::input_system(world, events, delta);
    collider::collide_system(world, map);
    animate::animate_system(world);

    let ghost ready = entities(*world);
    proof {
        assert(each(before, ready, |s: EntityState| ready_step(s, action, map.tiles@)));
        lemma_some_after(
            before,
            ready,
            |s: EntityState| ready_step(s, action, map.tiles@),
            |s: EntityState| move_fault(s),
        );
    }

    match mover::move_system(world) {
        Err(violation) => {
            return Err(violation);
        },
        Ok(()) => {},
    }
    match camera::camera_system(world, scene) {
        Err(violation) => {
            assert(each(
                before,
                entities(*world),
                |s: EntityState| tick_step(s, action, map.tiles@),
            ));
            return Err(violation);
        },
        Ok(()) => {},
    }
    assert(each(before, entities(*world), |s: EntityState| tick_step(s, action, map.tiles@)));
    cleanup::cleanup_system(world)
}

} // verus!
