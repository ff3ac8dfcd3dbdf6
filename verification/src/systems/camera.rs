//! Camera: swings the views as asked, and hands the renderer its camera.

use vstd::prelude::*;
use hecs::World;
use crate::components::{Action, Camera, Intent};
use crate::fixed;
use crate::scene::SceneCamera;
use crate::systems::pass::{each, for_each, some};
use crate::violation::Violation;
use crate::world::{entities, lists, snapshot, EntityState};

verus! {

/// The camera `camera` after a look by `dx` and `dy`: in free view the yaw
/// grows by `dx` and the pitch falls by `dy`; locked, both go back to zero.
pub open spec fn looked(camera: Camera, dx: i64, dy: i64) -> Camera {
    if camera.free_view {
        Camera {
            yaw: fixed::clamp(camera.yaw + dx) as i64,
            pitch: fixed::clamp(camera.pitch - dy) as i64,
            ..camera
        }
    } else {
        Camera { yaw: 0, pitch: 0, ..camera }
    }
}

/// The camera `camera` after its free view is switched to `lock`; switching
/// it off brings yaw and pitch back to zero.
pub open spec fn switched(camera: Camera, lock: bool) -> Camera {
    if lock {
        Camera { free_view: true, ..camera }
    } else {
        Camera { free_view: false, yaw: 0, pitch: 0 }
    }
}

/// What the first pass makes of one entity: a camera takes the look or the
/// switch that the intent asks for, and the intent goes. Any other intent
/// stays, and the camera with it.
pub open spec fn camera_step(s: EntityState) -> EntityState {
    if s.camera is Some && s.intent is Some {
        match s.intent->0.action {
            Action::Look((dx, dy)) => EntityState {
                camera: Some(looked(s.camera->0, dx, dy)),
                intent: None,
                ..s
            },
            Action::ControlCamera(lock) => EntityState {
                camera: Some(switched(s.camera->0, lock)),
                intent: None,
                ..s
            },
            _ => s,
        }
    } else {
        s
    }
}

/// Whether the renderer's camera can be taken from `s`: it has a camera, a
/// position and an orientation.
pub open spec fn films(s: EntityState) -> bool {
    s.camera is Some && s.position is Some && s.orientation is Some
}

/// The renderer's camera as `s` gives it: at the entity's position, its
/// heading swung by the camera's yaw, at the camera's pitch.
pub open spec fn shot(s: EntityState) -> SceneCamera {
    SceneCamera {
        position: s.position->0.point(),
        yaw: fixed::clamp(s.orientation->0.yaw + s.camera->0.yaw) as i64,
        pitch: s.camera->0.pitch,
    }
}

/// `s` with the intent to carry out `action`.
pub open spec fn asked(s: EntityState, action: Action) -> EntityState {
    EntityState { intent: Some(Intent { action }), ..s }
}

/// Taking control of a camera and then looking by `dx` and `dy` adds `dx` to
/// the yaw it had and takes `dy` from its pitch, each saturating; giving
/// control up afterwards brings both back to zero. Each of the three
/// intents is consumed.
pub proof fn lemma_control_look_release(s: EntityState, dx: i64, dy: i64)
    requires
        s.camera is Some,
    ensures
        ({
            let had = s.camera->0;
            let held = camera_step(asked(s, Action::ControlCamera(true)));
            let swung = camera_step(asked(held, Action::Look((dx, dy))));
            let released = camera_step(asked(swung, Action::ControlCamera(false)));
            &&& held == (EntityState { camera: Some(Camera { free_view: true, ..had }), intent: None, ..s })
            &&& swung == (EntityState {
                camera: Some(
                    Camera {
                        free_view: true,
                        yaw: fixed::clamp(had.yaw + dx) as i64,
                        pitch: fixed::clamp(had.pitch - dy) as i64,
                    },
                ),
                intent: None,
                ..s
            })
            &&& fixed::in_range(had.yaw + dx) ==> swung.camera->0.yaw == had.yaw + dx
            &&& fixed::in_range(had.pitch - dy) ==> swung.camera->0.pitch == had.pitch - dy
            &&& released == (EntityState { camera: Some(Camera::at_rest()), intent: None, ..s })
        }),
{
}

/// Giving up control brings any camera to rest, whatever it had gathered.
pub proof fn lemma_release_resets(s: EntityState)
    requires
        s.camera is Some,
    ensures
        camera_step(asked(s, Action::ControlCamera(false))) == (EntityState {
            camera: Some(Camera::at_rest()),
            intent: None,
            ..s
        }),
{
}

fn camera_entity(s: &EntityState) -> (out: Option<EntityState>)
    ensures
        match out {
            Some(next) => next == camera_step(*s) && s.same_frame(next),
            None => camera_step(*s) == *s,
        },
{
    match (s.camera, s.intent) {
        (Some(camera), Some(intent)) => {
            let mut camera = camera;
            match intent.action {
                Action::Look((dx, dy)) => {
                    if camera.free_view {
                        camera.yaw = fixed::plus(camera.yaw, dx);
                        camera.pitch = fixed::minus(camera.pitch, dy);
                    } else {
                        camera.yaw = 0;
                        camera.pitch = 0;
                    }
                },
                Action::ControlCamera(lock) => {
                    camera.free_view = lock;
                    if !lock {
                        camera.yaw = 0;
                        camera.pitch = 0;
                    }
                },
                _ => {
                    return None;
                },
            }
            Some(
                EntityState {
                    player: s.player,
                    position: s.position,
                    orientation: s.orientation,
                    intent: None,
                    animation: s.animation,
                    camera: Some(camera),
                },
            )
        },
        _ => None,
    }
}

fn filmed(s: &EntityState) -> (out: Option<SceneCamera>)
    ensures
        out is Some == films(*s),
        out is Some ==> out->0 == shot(*s),
{
    match (s.camera, s.position, s.orientation) {
        (Some(camera), Some(position), Some(orientation)) => Some(
            SceneCamera {
                position: position.to_vec3(),
                yaw: fixed::plus(orientation.yaw, camera.yaw),
                pitch: camera.pitch,
            },
        ),
        _ => None,
    }
}

/// Applies the looks and the switches of the free view to the cameras
/// that are asked for them, and consumes those intents.
pub fn move_camera(world: &mut World)
    ensures
        each(entities(*old(world)), entities(*final(world)), |s: EntityState| camera_step(s)),
{
    let f = |s: &EntityState| -> (out: Option<EntityState>)
        ensures
            match out {
                Some(next) => next == camera_step(*s) && s.same_frame(next),
                None => camera_step(*s) == *s,
            },
        { camera_entity(s) };
    for_each(world, f, Ghost(|s: EntityState| camera_step(s)));
}

/// Writes the renderer's camera from an entity that has a camera, a
/// position and an orientation. Where there is none, the camera stays as it
/// is and the violation is reported. The world is only read.
pub fn update_scene(world: &mut World, scene: &mut SceneCamera) -> (out: Result<(), Violation>)
    ensures
        entities(*final(world)) == entities(*old(world)),
        out is Err <==> !some(entities(*old(world)), |s: EntityState| films(s)),
        out is Err ==> out == Err::<(), Violation>(Violation::NoCamera) && *final(scene) == *old(
            scene,
        ),
        out is Ok ==> exists|id: u64|
            entities(*old(world)).dom().contains(id) && films(#[trigger] entities(*old(world))[id])
                && *final(scene) == shot(entities(*old(world))[id]),
{
    let listed = snapshot(world);
    let ghost all = entities(*world);
    let mut found: Option<SceneCamera> = None;
    let ghost mut source: u64 = 0;
    let mut k: usize = 0;
    while k < listed.len()
        invariant
            k <= listed.len(),
            lists(listed@, all),
            found is None ==> forall|j: int| 0 <= j < k ==> !films((#[trigger] listed@[j]).1),
            found is Some ==> all.dom().contains(source) && films(all[source]) && found->0 == shot(
                all[source],
            ),
        decreases listed.len() - k,
    {
        let state = listed[k].1;
        match filmed(&state) {
            Some(camera) => {
                found = Some(camera);
                proof {
                    source = listed@[k as int].0;
                }
            },
            None => {},
        }
        k += 1;
    }
    match found {
        Some(camera) => {
            *scene = camera;
            Ok(())
        },
        None => {
            assert forall|id: u64| all.dom().contains(id) implies !films(#[trigger] all[id]) by {
                if all[id] != EntityState::vacant() {
                    let j = choose|j: int| 0 <= j < listed.len() && (#[trigger] listed@[j]).0 == id;
                    assert(!films(listed@[j].1));
                }
            }
            Err(Violation::NoCamera)
        },
    }
}

/// Runs both passes: the cameras are swung first, then the renderer's is
/// written from the result.
pub fn camera_system(world: &mut World, scene: &mut SceneCamera) -> (out: Result<(), Violation>)
    ensures
        each(entities(*old(world)), entities(*final(world)), |s: EntityState| camera_step(s)),
        out is Err <==> !some(entities(*final(world)), |s: EntityState| films(s)),
        out is Err ==> out == Err::<(), Violation>(Violation::NoCamera) && *final(scene) == *old(
            scene,
        ),
        out is Ok ==> exists|id: u64|
            entities(*final(world)).dom().contains(id) && films(
                #[trigger] entities(*final(world))[id],
            ) && *final(scene) == shot(entities(*final(world))[id]),
{
    move_camera(world);
    update_scene(world, scene)
}

} // verus!
