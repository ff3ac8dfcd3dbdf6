use blobber::components::{Animation, AnimationType, Camera, Orientation, Position};
use blobber::fixed::{FRAC_PI_2, HALF, LIMIT, PI, UNIT};
use blobber::movement::{Direction, Facing};
use blobber::vector::Vec3;

#[test]
fn translate_without_clip_adds() {
    let mut p = Position { x: 0, y: UNIT, z: -UNIT };
    p.translate(Vec3::new(2184, 0, -2184), false);
    assert_eq!(p, Position { x: 2184, y: UNIT, z: -UNIT - 2184 });
}

#[test]
fn translate_with_clip_snaps_each_axis() {
    let mut p = Position { x: 63336, y: HALF - 1, z: -63336 };
    p.translate(Vec3::new(2184, 0, -2184), true);
    assert_eq!(p, Position { x: UNIT, y: 0, z: -UNIT });
}

#[test]
fn translate_saturates_at_the_limit() {
    let mut p = Position { x: LIMIT, y: -LIMIT, z: i64::MAX };
    p.translate(Vec3::new(UNIT, -UNIT, 0), false);
    assert_eq!(p, Position { x: LIMIT, y: -LIMIT, z: LIMIT });
    p.translate(Vec3::new(UNIT, -UNIT, UNIT), true);
    assert_eq!(p, Position { x: LIMIT, y: -LIMIT, z: LIMIT });
}

#[test]
fn position_gives_its_point() {
    assert_eq!(Position { x: 1, y: 2, z: 3 }.to_vec3(), Vec3 { x: 1, y: 2, z: 3 });
}

#[test]
fn orientation_starts_at_rest() {
    assert_eq!(Orientation::new(Facing::North), Orientation { facing: Facing::North, yaw: -FRAC_PI_2 });
    assert_eq!(Orientation::new(Facing::West), Orientation { facing: Facing::West, yaw: PI });
}

#[test]
fn face_sets_facing_and_yaw() {
    let mut o = Orientation { facing: Facing::North, yaw: 17 };
    o.face(Facing::South);
    assert_eq!(o, Orientation { facing: Facing::South, yaw: FRAC_PI_2 });
}

#[test]
fn rotate_with_clip_makes_the_quarter_turn() {
    let mut o = Orientation { facing: Facing::North, yaw: -3474 };
    o.rotate(Direction::Right, 2184, true);
    assert_eq!(o, Orientation { facing: Facing::East, yaw: 0 });
    o.rotate(Direction::Backward, UNIT, true);
    assert_eq!(o, Orientation { facing: Facing::West, yaw: PI });
    o.rotate(Direction::Forward, UNIT, true);
    assert_eq!(o, Orientation { facing: Facing::West, yaw: PI });
    o.rotate(Direction::Left, UNIT, true);
    assert_eq!(o, Orientation { facing: Facing::South, yaw: FRAC_PI_2 });
}

#[test]
fn rotate_without_clip_moves_the_yaw_only() {
    let mut o = Orientation::new(Facing::North);
    o.rotate(Direction::Right, 2184, false);
    assert_eq!(o, Orientation { facing: Facing::North, yaw: -FRAC_PI_2 + 3430 });
    o.rotate(Direction::Left, 2184, false);
    assert_eq!(o, Orientation { facing: Facing::North, yaw: -FRAC_PI_2 });
    o.rotate(Direction::Backward, UNIT, false);
    assert_eq!(o, Orientation { facing: Facing::North, yaw: 0 });
    o.rotate(Direction::Forward, UNIT, false);
    assert_eq!(o, Orientation { facing: Facing::North, yaw: 0 });
}

#[test]
fn four_clipped_right_turns_from_north_end_at_rest_on_north() {
    let mut o = Orientation::new(Facing::North);
    for _ in 0..4 {
        o.rotate(Direction::Right, UNIT, true);
    }
    assert_eq!(o, Orientation::new(Facing::North));
}

#[test]
fn camera_starts_locked_and_level() {
    assert_eq!(Camera::new(), Camera { free_view: false, pitch: 0, yaw: 0 });
}

#[test]
fn animation_starts_with_thirty_frames() {
    let effect = AnimationType::TRANSLATE(Position { x: 0, y: 0, z: 0 }, Direction::Forward);
    let a = Animation::new(effect);
    assert_eq!(a, Animation { effect, progress: 0, frames: 30 });
    assert!(!a.last());
}

#[test]
fn animation_counts_to_its_frames() {
    let effect = AnimationType::ROTATE(Orientation::new(Facing::East), Direction::Left);
    let mut a = Animation::new(effect);
    for tick in 1..30u32 {
        assert!(!a.progress());
        assert_eq!(a.progress, tick);
        assert_eq!(a.last(), tick == 29);
    }
    assert!(a.progress());
    assert_eq!(a.progress, 30);
    assert!(!a.last());
}

#[test]
fn animation_progress_stays_at_the_largest_count() {
    let effect = AnimationType::TRANSLATE(Position { x: 0, y: 0, z: 0 }, Direction::Left);
    let mut a = Animation { effect, progress: u32::MAX, frames: 30 };
    assert!(a.progress());
    assert_eq!(a.progress, u32::MAX);
}

#[test]
fn animation_without_frames_is_over_at_once_and_never_last() {
    let effect = AnimationType::TRANSLATE(Position { x: 0, y: 0, z: 0 }, Direction::Left);
    let mut a = Animation { effect, progress: 0, frames: 0 };
    assert!(!a.last());
    assert!(a.progress());
}
