//! Collider: cancels the moves that would end on a tile.

use vstd::prelude::*;
use hecs::World;
use crate::components::Action;
use crate::fixed;
use crate::map::{occupied, Tile, TileMap};
use crate::movement::{get_translation, translation_spec, Direction, Facing};
use crate::systems::pass::{each, for_each};
use crate::vector::Vec3;
use crate::world::{entities, EntityState};

verus! {

/// The point one whole step from `from` in `direction`, seen from `facing`.
pub open spec fn target(from: Vec3, facing: Facing, direction: Direction) -> Vec3 {
    from.plus_spec(translation_spec(facing, direction, fixed::UNIT as int))
}

/// Whether `s` is about to move onto one of `tiles`.
pub open spec fn blocked<M>(s: EntityState, tiles: Seq<Tile<M>>) -> bool {
    &&& s.awaits_move()
    &&& s.intent->0.action is Move
    &&& occupied(
        tiles,
        target(s.position->0.point(), s.orientation->0.facing, s.intent->0.action->Move_0),
    )
}

/// What Collider makes of one entity: a blocked move loses its intent, and
/// nothing else changes.
pub open spec fn collide_step<M>(s: EntityState, tiles: Seq<Tile<M>>) -> EntityState {
    if blocked(s, tiles) {
        EntityState { intent: None, ..s }
    } else {
        s
    }
}

fn collide_entity<M: Copy>(s: &EntityState, map: &TileMap<M>) -> (out: Option<EntityState>)
    ensures
        match out {
            Some(next) => next == collide_step(*s, map.tiles@) && s.same_frame(next),
            None => collide_step(*s, map.tiles@) == *s,
        },
{
    if s.animation.is_some() {
        return None;
    }
    match (s.orientation, s.position, s.intent) {
        (Some(orientation), Some(position), Some(intent)) => match intent.action {
            Action::Move(direction) => {
                let translation = get_translation(orientation.facing, direction, fixed::UNIT);
                let new_position = position.to_vec3().plus(translation);
                if map.collides(new_position) {
                    Some(
                        EntityState {
                            player: s.player,
                            position: s.position,
                            orientation: s.orientation,
                            intent: None,
                            animation: s.animation,
                            camera: s.camera,
                        },
                    )
                } else {
                    None
                }
            },
            _ => None,
        },
        _ => None,
    }
}

/// Takes the intent from every entity that is about to move onto a tile
/// of `map`. Turns, looks and camera switches are not checked.
pub fn collide_system<M: Copy>(world: &mut World, map: &TileMap<M>)
    ensures
        each(
            entities(*old(world)),
            entities(*final(world)),
            |s: EntityState| collide_step(s, map.tiles@),
        ),
{
    let f = |s: &EntityState| -> (out: Option<EntityState>)
        ensures
            match out {
                Some(next) => next == collide_step(*s, map.tiles@) && s.same_frame(next),
                None => collide_step(*s, map.tiles@) == *s,
            },
        { collide_entity(s, map) };
    for_each(world, f, Ghost(|s: EntityState| collide_step(s, map.tiles@)));
}

} // verus!
