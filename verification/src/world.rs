//! The entity world and what this crate assumes of it.
//!
//! Entities live in a `hecs::World`. The systems see it as a map from an
//! entity's identifier to the attributes it carries, read it through one
//! listing and change it one attribute at a time. The items marked
//! `external_body` state what those calls do; they are assumed, not proved.

use vstd::prelude::*;
use hecs::{Entity, World};
use crate::components::{Animation, Camera, Intent, Orientation, Player, Position};

verus! {

#[verifier::external_type_specification]
#[verifier::external_body]
pub struct ExWorld(hecs::World);

/// The attributes of one entity that the systems read or write.
#[derive(Clone, Copy, Debug, PartialEq, Eq)]
pub struct EntityState {
    pub player: bool,
    pub position: Option<Position>,
    pub orientation: Option<Orientation>,
    pub intent: Option<Intent>,
    pub animation: Option<Animation>,
    pub camera: Option<Camera>,
}

impl EntityState {
    /// The state of an entity that carries none of the attributes.
    pub open spec fn vacant() -> EntityState {
        EntityState {
            player: false,
            position: None,
            orientation: None,
            intent: None,
            animation: None,
            camera: None,
        }
    }

    /// Whether the entity can be moved: it has an orientation, a position
    /// and an intent.
    pub open spec fn movable(self) -> bool {
        &&& self.orientation is Some
        &&& self.position is Some
        &&& self.intent is Some
    }

    /// Whether the entity can be moved and no transition has begun for it.
    pub open spec fn awaits_move(self) -> bool {
        self.movable() && self.animation is None
    }

    /// Whether the entity can be moved and is in a transition.
    pub open spec fn in_transition(self) -> bool {
        self.movable() && self.animation is Some
    }

    /// Whether the entity has an intent that no animation carries on.
    pub open spec fn lingering(self) -> bool {
        self.intent is Some && self.animation is None
    }

    /// Whether `other` differs from `self` at most in the values of the
    /// attributes and in having an intent or an animation: no entity gains
    /// or loses its tag, position, orientation or camera.
    pub open spec fn same_frame(self, other: EntityState) -> bool {
        &&& self.player == other.player
        &&& self.position is Some == other.position is Some
        &&& self.orientation is Some == other.orientation is Some
        &&& self.camera is Some == other.camera is Some
    }
}

/// The entities that `world` holds, spawned or reserved and not despawned,
/// each under the bits of its handle, with the attributes it carries. One
/// that has only been reserved carries none.
pub uninterp spec fn entities(world: World) -> Map<u64, EntityState>;

/// `all` with the state of `id` replaced, if `all` has such an entity.
pub open spec fn amend(all: Map<u64, EntityState>, id: u64, state: EntityState) -> Map<
    u64,
    EntityState,
> {
    if all.dom().contains(id) {
        all.insert(id, state)
    } else {
        all
    }
}

/// Whether `listed` names entities of `all` with their states, none twice,
/// and leaves out none but such as carry no attribute.
pub open spec fn lists(listed: Seq<(u64, EntityState)>, all: Map<u64, EntityState>) -> bool {
    &&& forall|k: int|
        0 <= k < listed.len() ==> all.dom().contains((#[trigger] listed[k]).0) && all[listed[k].0]
            == listed[k].1
    &&& forall|j: int, k: int|
        0 <= j < k < listed.len() ==> (#[trigger] listed[j]).0 != (#[trigger] listed[k]).0
    &&& forall|id: u64|
        all.dom().contains(id) && #[trigger] all[id] != EntityState::vacant() ==> exists|k: int|
            0 <= k < listed.len() && (#[trigger] listed[k]).0 == id
}

/// Lists the entities of `world`. Calls `World::query_mut` for all six
/// attributes, each optional, which visits every entity that is stored under
/// some set of attributes once; the world is left as it was.
#[verifier::external_body]
pub(crate) fn snapshot(world: &mut World) -> (listed: Vec<(u64, EntityState)>)
    ensures
        entities(*final(world)) == entities(*old(world)),
        lists(listed@, entities(*old(world))),
{
    let all = world.query_mut::<(
        Option<&Player>, Option<&Position>, Option<&Orientation>,
        Option<&Intent>, Option<&Animation>, Option<&Camera>,
    )>();
    all.into_iter().map(|(entity, (player, position, orientation, intent, animation, camera))| (
        entity.to_bits().get(),
        EntityState {
            player: player.is_some(), position: position.copied(),
            orientation: orientation.copied(), intent: intent.copied(),
            animation: animation.copied(), camera: camera.copied(),
        },
    )).collect()
}

/// Gives the entity `id` the position `position`. Calls `World::insert_one`,
/// which adds the attribute or replaces the one that is there, and does
/// nothing for a handle of no entity.
#[verifier::external_body]
pub(crate) fn put_position(world: &mut World, id: u64, position: Position)
    ensures
        entities(*final(world)) == amend(
            entities(*old(world)),
            id,
            (EntityState { position: Some(position), ..entities(*old(world))[id] }),
        ),
{
    if let Some(entity) = Entity::from_bits(id) {
        let _ = world.insert_one(entity, position);
    }
}

/// Gives the entity `id` the orientation `orientation`. Calls
/// `World::insert_one`, as above.
#[verifier::external_body]
pub(crate) fn put_orientation(world: &mut World, id: u64, orientation: Orientation)
    ensures
        entities(*final(world)) == amend(
            entities(*old(world)),
            id,
            (EntityState { orientation: Some(orientation), ..entities(*old(world))[id] }),
        ),
{
    if let Some(entity) = Entity::from_bits(id) {
        let _ = world.insert_one(entity, orientation);
    }
}

/// Gives the entity `id` the camera `camera`. Calls `World::insert_one`, as
/// above.
#[verifier::external_body]
pub(crate) fn put_camera(world: &mut World, id: u64, camera: Camera)
    ensures
        entities(*final(world)) == amend(
            entities(*old(world)),
            id,
            (EntityState { camera: Some(camera), ..entities(*old(world))[id] }),
        ),
{
    if let Some(entity) = Entity::from_bits(id) {
        let _ = world.insert_one(entity, camera);
    }
}

/// Gives the entity `id` the intent `intent`. Calls `World::insert_one`, as
/// above.
#[verifier::external_body]
pub(crate) fn put_intent(world: &mut World, id: u64, intent: Intent)
    ensures
        entities(*final(world)) == amend(
            entities(*old(world)),
            id,
            (EntityState { intent: Some(intent), ..entities(*old(world))[id] }),
        ),
{
    if let Some(entity) = Entity::from_bits(id) {
        let _ = world.insert_one(entity, intent);
    }
}

/// Gives the entity `id` the animation `animation`. Calls
/// `World::insert_one`, as above.
#[verifier::external_body]
pub(crate) fn put_animation(world: &mut World, id: u64, animation: Animation)
    ensures
        entities(*final(world)) == amend(
            entities(*old(world)),
            id,
            (EntityState { animation: Some(animation), ..entities(*old(world))[id] }),
        ),
{
    if let Some(entity) = Entity::from_bits(id) {
        let _ = world.insert_one(entity, animation);
    }
}

/// Takes the intent of the entity `id` away. Calls `World::remove_one`,
/// which removes the attribute if the entity carries it, and does nothing
/// otherwise or for a handle of no entity.
#[verifier::external_body]
pub(crate) fn drop_intent(world: &mut World, id: u64)
    ensures
        entities(*final(world)) == amend(
            entities(*old(world)),
            id,
            (EntityState { intent: None, ..entities(*old(world))[id] }),
        ),
{
    if let Some(entity) = Entity::from_bits(id) {
        let _ = world.remove_one::<Intent>(entity);
    }
}

/// Takes the animation of the entity `id` away. Calls `World::remove_one`,
/// as above.
#[verifier::external_body]
pub(crate) fn drop_animation(world: &mut World, id: u64)
    ensures
        entities(*final(world)) == amend(
            entities(*old(world)),
            id,
            (EntityState { animation: None, ..entities(*old(world))[id] }),
        ),
{
    if let Some(entity) = Entity::from_bits(id) {
        let _ = world.remove_one::<Animation>(entity);
    }
}

} // verus!
