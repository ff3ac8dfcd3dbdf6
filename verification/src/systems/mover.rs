//! Mover: carries out the moves and turns, at once or a fraction per tick.

use vstd::prelude::*;
use hecs::World;
use crate::components::{Action, Animation, Intent, Orientation, Position};
use crate::fixed;
use crate::movement::{get_translation, translation_spec};
use crate::systems::pass::{any, each, for_each, some};
use crate::violation::Violation;
use crate::world::{entities, EntityState};

verus! {

/// Whether the mover cannot handle `s`: the entity can be moved, and its
/// intent is neither a move nor a turn.
pub open spec fn move_fault(s: EntityState) -> bool {
    s.movable() && !(s.intent->0.action is Move) && !(s.intent->0.action is Turn)
}

/// What the instant pass makes of one entity. One that awaits a move goes a
/// whole step and is snapped to the grid; one that awaits a turn makes its
/// quarter turn; either loses its intent.
pub open spec fn instant_step(s: EntityState) -> EntityState {
    if s.awaits_move() {
        let orientation = s.orientation->0;
        match s.intent->0.action {
            Action::Move(direction) => EntityState {
                position: Some(
                    s.position->0.translate_spec(
                        translation_spec(orientation.facing, direction, fixed::UNIT as int),
                        true,
                    ),
                ),
                intent: None,
                ..s
            },
            Action::Turn(direction) => EntityState {
                orientation: Some(orientation.rotate_spec(direction, fixed::UNIT as int, true)),
                intent: None,
                ..s
            },
            _ => s,
        }
    } else {
        s
    }
}

/// What the animated pass makes of one entity. One in a transition goes, or
/// turns by, one part in as many as its animation has frames; on the final
/// step the result is snapped, to the grid or to the quarter turn.
pub open spec fn animated_step(s: EntityState) -> EntityState {
    if s.in_transition() {
        let orientation = s.orientation->0;
        let animation = s.animation->0;
        let part = fixed::reciprocal_spec(animation.frames as int);
        match s.intent->0.action {
            Action::Move(direction) => EntityState {
                position: Some(
                    s.position->0.translate_spec(
                        translation_spec(orientation.facing, direction, part),
                        animation.last_spec(),
                    ),
                ),
                ..s
            },
            Action::Turn(direction) => EntityState {
                orientation: Some(orientation.rotate_spec(direction, part, animation.last_spec())),
                ..s
            },
            _ => s,
        }
    } else {
        s
    }
}

/// What Mover makes of one entity: the instant pass, then the animated one.
pub open spec fn move_step(s: EntityState) -> EntityState {
    animated_step(instant_step(s))
}

fn faulty(s: &EntityState) -> (out: bool)
    ensures
        out == move_fault(*s),
{
    match (s.orientation, s.position, s.intent) {
        (Some(_), Some(_), Some(intent)) => match intent.action {
            Action::Move(_) => false,
            Action::Turn(_) => false,
            _ => true,
        },
        _ => false,
    }
}

fn moved(
    s: &EntityState,
    position: Option<Position>,
    orientation: Option<Orientation>,
    intent: Option<Intent>,
) -> (out: EntityState)
    ensures
        out == (EntityState { position, orientation, intent, ..*s }),
{
    EntityState {
        player: s.player,
        position,
        orientation,
        intent,
        animation: s.animation,
        camera: s.camera,
    }
}

fn instant_entity(s: &EntityState) -> (out: Option<EntityState>)
    ensures
        match out {
            Some(next) => next == instant_step(*s) && s.same_frame(next),
            None => instant_step(*s) == *s,
        },
{
    if s.animation.is_some() {
        return None;
    }
    match (s.orientation, s.position, s.intent) {
        (Some(orientation), Some(position), Some(intent)) => match intent.action {
            Action::Move(direction) => {
                let translation = get_translation(orientation.facing, direction, fixed::UNIT);
                let mut position = position;
                position.translate(translation, true);
                Some(moved(s, Some(position), s.orientation, None))
            },
            Action::Turn(direction) => {
                let mut orientation = orientation;
                orientation.rotate(direction, fixed::UNIT, true);
                Some(moved(s, s.position, Some(orientation), None))
            },
            _ => None,
        },
        _ => None,
    }
}

fn animated_entity(s: &EntityState) -> (out: Option<EntityState>)
    ensures
        match out {
            Some(next) => next == animated_step(*s) && s.same_frame(next),
            None => animated_step(*s) == *s,
        },
{
    let animation: Animation = match s.animation {
        Some(animation) => animation,
        None => {
            return None;
        },
    };
    match (s.orientation, s.position, s.intent) {
        (Some(orientation), Some(position), Some(intent)) => match intent.action {
            Action::Move(direction) => {
                let translation = get_translation(
                    orientation.facing,
                    direction,
                    fixed::reciprocal(animation.frames),
                );
                let mut position = position;
                position.translate(translation, animation.last());
                Some(moved(s, Some(position), s.orientation, s.intent))
            },
            Action::Turn(direction) => {
                let mut orientation = orientation;
                orientation.rotate(direction, fixed::reciprocal(animation.frames), animation.last());
                Some(moved(s, s.position, Some(orientation), s.intent))
            },
            _ => None,
        },
        _ => None,
    }
}

fn instant_move(world: &mut World)
    ensures
        each(entities(*old(world)), entities(*final(world)), |s: EntityState| instant_step(s)),
{
    let f = |s: &EntityState| -> (out: Option<EntityState>)
        ensures
            match out {
                Some(next) => next == instant_step(*s) && s.same_frame(next),
                None => instant_step(*s) == *s,
            },
        { instant_entity(s) };
    for_each(world, f, Ghost(|s: EntityState| instant_step(s)));
}

fn animated_move(world: &mut World)
    ensures
        each(entities(*old(world)), entities(*final(world)), |s: EntityState| animated_step(s)),
{
    let f = |s: &EntityState| -> (out: Option<EntityState>)
        ensures
            match out {
                Some(next) => next == animated_step(*s) && s.same_frame(next),
                None => animated_step(*s) == *s,
            },
        { animated_entity(s) };
    for_each(world, f, Ghost(|s: EntityState| animated_step(s)));
}

/// Moves and turns the entities that have an intent to: at once those that
/// are in no transition, by a fraction those that are. Where an entity
/// that can be moved has any other intent, nothing is done and the
/// violation is reported.
pub fn move_system(world: &mut World) -> (out: Result<(), Violation>)
    ensures
        out is Err <==> some(entities(*old(world)), |s: EntityState| move_fault(s)),
        out is Err ==> out == Err::<(), Violation>(Violation::UnexpectedAction) && entities(
            *final(world),
        ) == entities(*old(world)),
        out is Ok ==> each(
            entities(*old(world)),
            entities(*final(world)),
            |s: EntityState| move_step(s),
        ),
{
    let f = |s: &EntityState| -> (out: bool)
        ensures
            out == move_fault(*s),
        { faulty(s) };
    if any(world, f, Ghost(|s: EntityState| move_fault(s))) {
        return Err(Violation::UnexpectedAction);
    }
    instant_move(world);
    animated_move(world);
    Ok(())
}

} // verus!
