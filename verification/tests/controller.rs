use blobber::controller::{CameraController, Facing, FreeCamera, Heading};
use blobber::events::Key;
use blobber::fixed::{FRAC_PI_2, HALF, LIMIT, PI, UNIT};
use blobber::vector::Vec3;

const AHEAD: Heading = Heading { sin: 0, cos: UNIT };

fn resting() -> FreeCamera {
    FreeCamera { position: Vec3 { x: 0, y: 0, z: 0 }, yaw: 0, pitch: 0, fovy: UNIT }
}

#[test]
fn a_new_controller_has_gathered_nothing() {
    let c = CameraController::new(Facing::South, 7);
    assert_eq!(
        c,
        CameraController {
            amount_left: 0,
            amount_right: 0,
            amount_forward: 0,
            amount_backward: 0,
            amount_up: 0,
            amount_down: 0,
            fov_up: 0,
            fov_down: 0,
            rotate_horizontal: 0,
            rotate_vertical: 0,
            scroll: 0,
            sensitivity: 7,
            debug: false,
            mouse_pressed: false,
            facing: Facing::South,
        }
    );
}

#[test]
fn turning_keys_turn_when_they_go_down_only() {
    let mut c = CameraController::new(Facing::North, UNIT);
    c.key_pressed(Key::A);
    assert_eq!(c.facing, Facing::West);
    c.key_released(Key::A);
    assert_eq!(c.facing, Facing::West);
    c.key_pressed(Key::E);
    c.key_pressed(Key::E);
    assert_eq!(c.facing, Facing::East);
    c.key_released(Key::E);
    assert_eq!(c.facing, Facing::East);
    assert_eq!(CameraController { facing: Facing::North, ..c }, CameraController::new(Facing::North, UNIT));
}

#[test]
fn each_way_has_two_keys() {
    let idle = CameraController::new(Facing::North, UNIT);
    for k in [Key::Z, Key::Up] {
        let mut c = idle;
        c.key_pressed(k);
        assert_eq!(c, CameraController { amount_forward: UNIT, ..idle });
        c.key_released(k);
        assert_eq!(c, idle);
    }
    for k in [Key::S, Key::Down] {
        let mut c = idle;
        c.key_pressed(k);
        assert_eq!(c, CameraController { amount_backward: UNIT, ..idle });
    }
    for k in [Key::Q, Key::Left] {
        let mut c = idle;
        c.key_pressed(k);
        assert_eq!(c, CameraController { amount_left: UNIT, ..idle });
    }
    for k in [Key::D, Key::Right] {
        let mut c = idle;
        c.key_pressed(k);
        assert_eq!(c, CameraController { amount_right: UNIT, ..idle });
    }
}

#[test]
fn the_other_keys_set_their_own_field() {
    let idle = CameraController::new(Facing::North, UNIT);
    let mut c = idle;
    c.key_pressed(Key::Space);
    assert_eq!(c, CameraController { amount_up: UNIT, ..idle });
    let mut c = idle;
    c.key_pressed(Key::LShift);
    assert_eq!(c, CameraController { amount_down: UNIT, ..idle });
    let mut c = idle;
    c.key_pressed(Key::PageUp);
    assert_eq!(c, CameraController { fov_up: UNIT, ..idle });
    let mut c = idle;
    c.key_pressed(Key::PageDown);
    assert_eq!(c, CameraController { fov_down: UNIT, ..idle });
    let mut c = idle;
    c.key_released(Key::L);
    assert_eq!(c, CameraController { debug: true, ..idle });
    let mut c = idle;
    c.key_pressed(Key::Other);
    c.key_released(Key::Other);
    assert_eq!(c, idle);
}

#[test]
fn the_mouse_drags_only_while_its_button_is_down() {
    let idle = CameraController::new(Facing::North, UNIT);
    let mut c = idle;
    c.mouse_drag(5, 9);
    assert_eq!(c, idle);
    c.mouse_pressed();
    assert_eq!(c, CameraController { mouse_pressed: true, ..idle });
    c.mouse_drag(5, 9);
    assert_eq!(
        c,
        CameraController { mouse_pressed: true, rotate_horizontal: 5, rotate_vertical: -9, ..idle }
    );
    c.mouse_drag(0, i64::MIN);
    assert_eq!(c.rotate_vertical, LIMIT);
    c.mouse_released();
    assert!(!c.mouse_pressed);
    c.mouse_scroll(-3);
    assert_eq!(c.scroll, -3);
}

#[test]
fn update_goes_forward_right_and_up() {
    let mut c = CameraController::new(Facing::East, UNIT);
    c.key_pressed(Key::Z);
    let mut camera = resting();
    assert!(!c.update_camera(&mut camera, AHEAD, UNIT));
    assert_eq!(camera.position, Vec3 { x: UNIT, y: 0, z: 0 });

    c.key_pressed(Key::D);
    c.key_pressed(Key::Space);
    assert!(!c.update_camera(&mut camera, AHEAD, UNIT));
    assert_eq!(camera.position, Vec3 { x: UNIT, y: UNIT, z: UNIT });

    c.key_pressed(Key::S);
    c.key_pressed(Key::Q);
    c.key_pressed(Key::LShift);
    c.update_camera(&mut camera, Heading { sin: UNIT, cos: 0 }, UNIT);
    assert_eq!(camera.position, Vec3 { x: 2 * UNIT, y: 0, z: 0 });
}

#[test]
fn update_spends_what_had_gathered() {
    let mut c = CameraController::new(Facing::East, UNIT);
    for k in [Key::Z, Key::S, Key::Q, Key::D, Key::Space, Key::LShift, Key::L, Key::PageUp] {
        c.key_pressed(k);
    }
    c.mouse_pressed();
    c.mouse_drag(3, 4);
    c.mouse_scroll(8);
    let mut camera = resting();
    assert!(c.update_camera(&mut camera, AHEAD, 0));
    assert_eq!(
        c,
        CameraController {
            fov_up: UNIT,
            scroll: 8,
            mouse_pressed: true,
            ..CameraController::new(Facing::East, UNIT)
        }
    );
    assert_eq!(camera, resting());
    assert!(!c.update_camera(&mut camera, AHEAD, 0));
}

#[test]
fn update_looks_along_the_facing_unless_the_button_is_down() {
    let mut camera = FreeCamera { yaw: 12345, pitch: 678, ..resting() };
    let mut c = CameraController::new(Facing::North, UNIT);
    c.update_camera(&mut camera, AHEAD, UNIT);
    assert_eq!((camera.yaw, camera.pitch), (-FRAC_PI_2, 0));
    c.key_pressed(Key::A);
    c.update_camera(&mut camera, AHEAD, UNIT);
    assert_eq!((camera.yaw, camera.pitch), (PI, 0));

    let mut camera = FreeCamera { yaw: 12345, pitch: 678, ..resting() };
    c.mouse_pressed();
    c.update_camera(&mut camera, AHEAD, UNIT);
    assert_eq!((camera.yaw, camera.pitch), (12345, 678));
}

#[test]
fn update_swings_by_drag_sensitivity_and_time() {
    let mut c = CameraController::new(Facing::North, HALF);
    c.mouse_pressed();
    c.mouse_drag(2 * UNIT, UNIT);
    let mut camera = resting();
    c.update_camera(&mut camera, AHEAD, HALF);
    assert_eq!(camera.yaw, HALF);
    assert_eq!(camera.pitch, -UNIT / 4);
    c.update_camera(&mut camera, AHEAD, HALF);
    assert_eq!((camera.yaw, camera.pitch), (HALF, -UNIT / 4));
}

#[test]
fn update_widens_and_narrows_the_view() {
    let mut c = CameraController::new(Facing::North, UNIT);
    c.key_pressed(Key::PageUp);
    let mut camera = resting();
    c.update_camera(&mut camera, AHEAD, HALF);
    assert_eq!(camera.fovy, UNIT + HALF);
    c.update_camera(&mut camera, AHEAD, HALF);
    assert_eq!(camera.fovy, 2 * UNIT);
    c.key_released(Key::PageUp);
    c.key_pressed(Key::PageDown);
    c.update_camera(&mut camera, AHEAD, UNIT);
    assert_eq!(camera.fovy, UNIT);
    c.key_pressed(Key::PageUp);
    c.update_camera(&mut camera, AHEAD, UNIT);
    assert_eq!(camera.fovy, UNIT);
}
