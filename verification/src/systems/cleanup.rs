//! Cleanup: checks that the tick has resolved every intent.

use vstd::prelude::*;
use hecs::World;
use crate::systems::pass::{any, some};
use crate::violation::Violation;
use crate::world::{entities, EntityState};

verus! {

fn lingers(s: &EntityState) -> (out: bool)
    ensures
        out == s.lingering(),
{
    s.intent.is_some() && s.animation.is_none()
}

/// Reports an intent that no animation carries on. The world is only read.
pub fn cleanup_intents(world: &mut World) -> (out: Result<(), Violation>)
    ensures
        entities(*final(world)) == entities(*old(world)),
        out is Err <==> some(entities(*old(world)), |s: EntityState| s.lingering()),
        out is Err ==> out == Err::<(), Violation>(Violation::LingeringIntent),
        out is Ok ==> forall|id: u64|
            entities(*final(world)).dom().contains(id) ==> {
                let s = #[trigger] entities(*final(world))[id];
                s.intent is None || (s.intent is Some && s.animation is Some)
            },
{
    let f = |s: &EntityState| -> (out: bool)
        ensures
            out == s.lingering(),
        { lingers(s) };
    if any(world, f, Ghost(|s: EntityState| s.lingering())) {
        Err(Violation::LingeringIntent)
    } else {
        assert forall|id: u64| entities(*world).dom().contains(id) implies !(
        #[trigger] entities(*world)[id]).lingering() by {}
        Ok(())
    }
}

/// Ends the tick: every intent must have been consumed, or be carried on by
/// an animation.
pub fn cleanup_system(world: &mut World) -> (out: Result<(), Violation>)
    ensures
        entities(*final(world)) == entities(*old(world)),
        out is Err <==> some(entities(*old(world)), |s: EntityState| s.lingering()),
        out is Err ==> out == Err::<(), Violation>(Violation::LingeringIntent),
        out is Ok ==> forall|id: u64|
            entities(*final(world)).dom().contains(id) ==> {
                let s = #[trigger] entities(*final(world))[id];
                s.intent is None || (s.intent is Some && s.animation is Some)
            },
{
    cleanup_intents(world)
}

} // verus!
