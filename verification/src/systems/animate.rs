//! Animate: counts the ticks of the transitions under way, and begins
//! those that are due.

use vstd::prelude::*;
use hecs::World;
use crate::components::{Action, Animation, AnimationType};
use crate::systems::pass::{each, for_each};
use crate::world::{entities, EntityState};

verus! {

/// What the first pass makes of one entity: its animation counts one tick;
/// one that has had all its ticks goes, and the intent with it.
pub open spec fn advance_step(s: EntityState) -> EntityState {
    match s.animation {
        Some(animation) => if animation.advanced().finished() {
            EntityState { animation: None, intent: None, ..s }
        } else {
            EntityState { animation: Some(animation.advanced()), ..s }
        },
        None => s,
    }
}

/// What the second pass makes of one entity: one that awaits a move or a
/// turn gets a fresh animation, which holds the position or the orientation
/// it starts from, and the direction.
pub open spec fn spawn_step(s: EntityState) -> EntityState {
    if s.awaits_move() {
        match s.intent->0.action {
            Action::Move(direction) => EntityState {
                animation: Some(
                    Animation::fresh(AnimationType::TRANSLATE(s.position->0, direction)),
                ),
                ..s
            },
            Action::Turn(direction) => EntityState {
                animation: Some(
                    Animation::fresh(AnimationType::ROTATE(s.orientation->0, direction)),
                ),
                ..s
            },
            _ => s,
        }
    } else {
        s
    }
}

/// What Animate makes of one entity: the first pass, then the second.
pub open spec fn animate_step(s: EntityState) -> EntityState {
    spawn_step(advance_step(s))
}

fn advance_entity(s: &EntityState) -> (out: Option<EntityState>)
    ensures
        match out {
            Some(next) => next == advance_step(*s) && s.same_frame(next),
            None => advance_step(*s) == *s,
        },
{
    match s.animation {
        Some(animation) => {
            let mut animation = animation;
            let finished = animation.progress();
            if finished {
                Some(
                    EntityState {
                        player: s.player,
                        position: s.position,
                        orientation: s.orientation,
                        intent: None,
                        animation: None,
                        camera: s.camera,
                    },
                )
            } else {
                Some(
                    EntityState {
                        player: s.player,
                        position: s.position,
                        orientation: s.orientation,
                        intent: s.intent,
                        animation: Some(animation),
                        camera: s.camera,
                    },
                )
            }
        },
        None => None,
    }
}

fn spawn_entity(s: &EntityState) -> (out: Option<EntityState>)
    ensures
        match out {
            Some(next) => next == spawn_step(*s) && s.same_frame(next),
            None => spawn_step(*s) == *s,
        },
{
    if s.animation.is_some() {
        return None;
    }
    match (s.orientation, s.position, s.intent) {
        (Some(orientation), Some(position), Some(intent)) => {
            let effect = match intent.action {
                Action::Move(direction) => AnimationType::TRANSLATE(position, direction),
                Action::Turn(direction) => AnimationType::ROTATE(orientation, direction),
                _ => {
                    return None;
                },
            };
            Some(
                EntityState {
                    player: s.player,
                    position: s.position,
                    orientation: s.orientation,
                    intent: s.intent,
                    animation: Some(Animation::new(effect)),
                    camera: s.camera,
                },
            )
        },
        _ => None,
    }
}

/// Counts one tick for every animation, and removes those that are over,
/// each with the intent of its entity.
pub fn update_animation(world: &mut World)
    ensures
        each(entities(*old(world)), entities(*final(world)), |s: EntityState| advance_step(s)),
{
    let f = |s: &EntityState| -> (out: Option<EntityState>)
        ensures
            match out {
                Some(next) => next == advance_step(*s) && s.same_frame(next),
                None => advance_step(*s) == *s,
            },
        { advance_entity(s) };
    for_each(world, f, Ghost(|s: EntityState| advance_step(s)));
}

/// Begins an animation for every entity that awaits a move or a turn.
pub fn add_animation(world: &mut World)
    ensures
        each(entities(*old(world)), entities(*final(world)), |s: EntityState| spawn_step(s)),
{
    let f = |s: &EntityState| -> (out: Option<EntityState>)
        ensures
            match out {
                Some(next) => next == spawn_step(*s) && s.same_frame(next),
                None => spawn_step(*s) == *s,
            },
        { spawn_entity(s) };
    for_each(world, f, Ghost(|s: EntityState| spawn_step(s)));
}

/// Runs both passes: the animations under way count their tick first, then
/// the new ones begin, so that a new one has counted none.
pub fn animate_system(world: &mut World)
    ensures
        each(entities(*old(world)), entities(*final(world)), |s: EntityState| animate_step(s)),
{
    update_animation(world);
    add_animation(world);
}

} // verus!
