//! Input: turns the events of a tick into at most one action, and hands it
//! to the player.

use vstd::prelude::*;
use hecs::World;
use crate::components::{Action, Intent};
use crate::events::{Event, Input, Key};
use crate::fixed;
use crate::movement::Direction;
use crate::systems::pass::{each, for_each};
use crate::world::{entities, EntityState};

verus! {

/// What the reading of the event queue has settled so far: the action, whether
/// a key has chosen one, and whether the reading has stopped.
pub struct Selection {
    pub action: Action,
    pub keyed: bool,
    pub stopped: bool,
}

/// The action that a key is bound to; `Idle` for a key without a binding.
pub open spec fn binding(key: Key) -> Action {
    match key {
        Key::A => Action::Turn(Direction::Left),
        Key::E => Action::Turn(Direction::Right),
        Key::Z => Action::Move(Direction::Forward),
        Key::Q => Action::Move(Direction::Left),
        Key::D => Action::Move(Direction::Right),
        Key::S => Action::Move(Direction::Backward),
        _ => Action::Idle,
    }
}

/// The selection `so_far` after one more event.
///
/// Once the reading has stopped, nothing changes. Before that: the first
/// pressed key that has a binding chooses its action, and no later key does;
/// a motion of the mouse chooses a look by its deltas scaled with `delta`;
/// a button of the mouse, pressed or released, chooses the free view on or
/// off and stops the reading. Every other event is passed over.
pub open spec fn hear(so_far: Selection, event: Event, delta: i64) -> Selection {
    if so_far.stopped {
        so_far
    } else {
        match event {
            Event::Input(Input::KeyPressed(key)) => if !so_far.keyed && binding(key)
                != Action::Idle {
                Selection { action: binding(key), keyed: true, ..so_far }
            } else {
                so_far
            },
            Event::Input(Input::MouseMotion(dx, dy)) => Selection {
                action: Action::Look(
                    (
                        fixed::scale_spec(dx as int, delta as int) as i64,
                        fixed::scale_spec(dy as int, delta as int) as i64,
                    ),
                ),
                ..so_far
            },
            Event::Input(Input::MouseReleased) => Selection {
                action: Action::ControlCamera(false),
                stopped: true,
                ..so_far
            },
            Event::Input(Input::MousePressed) => Selection {
                action: Action::ControlCamera(true),
                stopped: true,
                ..so_far
            },
            _ => so_far,
        }
    }
}

/// The selection after all of `events`, read in order from nothing chosen.
pub open spec fn selection(events: Seq<Event>, delta: i64) -> Selection
    decreases events.len(),
{
    if events.len() == 0 {
        Selection { action: Action::Idle, keyed: false, stopped: false }
    } else {
        hear(selection(events.drop_last(), delta), events.last(), delta)
    }
}

/// The action that the events of one tick amount to.
pub open spec fn select_spec(events: Seq<Event>, delta: i64) -> Action {
    selection(events, delta).action
}

/// What Input makes of one entity: a player without an intent gets one for
/// `action`, unless the action is `Idle`.
pub open spec fn input_step(s: EntityState, action: Action) -> EntityState {
    if action != Action::Idle && s.player && s.intent is None {
        EntityState { intent: Some(Intent { action }), ..s }
    } else {
        s
    }
}

fn bound(key: Key) -> (out: Action)
    ensures
        out == binding(key),
{
    match key {
        Key::A => Action::Turn(Direction::Left),
        Key::E => Action::Turn(Direction::Right),
        Key::Z => Action::Move(Direction::Forward),
        Key::Q => Action::Move(Direction::Left),
        Key::D => Action::Move(Direction::Right),
        Key::S => Action::Move(Direction::Backward),
        _ => Action::Idle,
    }
}

fn is_idle(action: &Action) -> (out: bool)
    ensures
        out == (*action == Action::Idle),
{
    match action {
        Action::Idle => true,
        _ => false,
    }
}

/// The action that the events of one tick amount to, with `delta` the
/// time since the tick before.
pub fn select_action(events: &Vec<Event>, delta: i64) -> (out: Action)
    ensures
        out == select_spec(events@, delta),
{
    let mut so_far = Selection { action: Action::Idle, keyed: false, stopped: false };
    let mut i: usize = 0;
    assert(events@.take(0) =~= Seq::<Event>::empty());
    while i < events.len()
        invariant
            i <= events.len(),
            so_far == selection(events@.take(i as int), delta),
        decreases events.len() - i,
    {
        assert(events@.take(i + 1).drop_last() =~= events@.take(i as int));
        assert(events@.take(i + 1).last() == events@[i as int]);
        if !so_far.stopped {
            match events[i] {
                Event::Input(Input::KeyPressed(key)) => {
                    let action = bound(key);
                    if !so_far.keyed && !is_idle(&action) {
                        so_far.action = action;
                        so_far.keyed = true;
                    }
                },
                Event::Input(Input::MouseMotion(dx, dy)) => {
                    so_far.action = Action::Look((fixed::scale(dx, delta), fixed::scale(dy, delta)));
                },
                Event::Input(Input::MouseReleased) => {
                    so_far.action = Action::ControlCamera(false);
                    so_far.stopped = true;
                },
                Event::Input(Input::MousePressed) => {
                    so_far.action = Action::ControlCamera(true);
                    so_far.stopped = true;
                },
                _ => {},
            }
        }
        i += 1;
    }
    assert(events@.take(i as int) =~= events@);
    so_far.action
}

fn input_entity(s: &EntityState, action: Action) -> (out: Option<EntityState>)
    ensures
        match out {
            Some(next) => next == input_step(*s, action) && s.same_frame(next),
            None => input_step(*s, action) == *s,
        },
{
    if !is_idle(&action) && s.player && s.intent.is_none() {
        Some(
            EntityState {
                player: s.player,
                position: s.position,
                orientation: s.orientation,
                intent: Some(Intent { action }),
                animation: s.animation,
                camera: s.camera,
            },
        )
    } else {
        None
    }
}

/// Reads the events of the tick and gives every player that has no intent
/// one for the action they amount to. An entity that holds an intent keeps
/// it, and no entity but a player is touched.
pub fn input_system(world: &mut World, events: &Vec<Event>, delta: i64)
    ensures
        each(
            entities(*old(world)),
            entities(*final(world)),
            |s: EntityState| input_step(s, select_spec(events@, delta)),
        ),
        forall|id: u64|
            entities(*old(world)).dom().contains(id) && entities(*old(world))[id].intent is Some
                ==> #[trigger] entities(*final(world))[id] == entities(*old(world))[id],
{
    let action = select_action(events, delta);
    let f = |s: &EntityState| -> (out: Option<EntityState>)
        ensures
            match out {
                Some(next) => next == input_step(*s, action) && s.same_frame(next),
                None => input_step(*s, action) == *s,
            },
        { input_entity(s, action) };
    for_each(world, f, Ghost(|s: EntityState| input_step(s, action)));
}

} // verus!
