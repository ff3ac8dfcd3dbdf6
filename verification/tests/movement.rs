use blobber::fixed::{FRAC_PI_2, LIMIT, PI, UNIT};
use blobber::movement::{get_translation, Direction, Facing};
use blobber::vector::Vec3;

#[test]
fn turn_follows_the_compass() {
    assert_eq!(Facing::North.turn(Direction::Left), Facing::West);
    assert_eq!(Facing::North.turn(Direction::Right), Facing::East);
    assert_eq!(Facing::North.turn(Direction::Forward), Facing::North);
    assert_eq!(Facing::North.turn(Direction::Backward), Facing::South);
    assert_eq!(Facing::South.turn(Direction::Left), Facing::East);
    assert_eq!(Facing::South.turn(Direction::Right), Facing::West);
    assert_eq!(Facing::South.turn(Direction::Forward), Facing::South);
    assert_eq!(Facing::South.turn(Direction::Backward), Facing::North);
    assert_eq!(Facing::East.turn(Direction::Left), Facing::North);
    assert_eq!(Facing::East.turn(Direction::Right), Facing::South);
    assert_eq!(Facing::East.turn(Direction::Forward), Facing::East);
    assert_eq!(Facing::East.turn(Direction::Backward), Facing::West);
    assert_eq!(Facing::West.turn(Direction::Left), Facing::South);
    assert_eq!(Facing::West.turn(Direction::Right), Facing::North);
    assert_eq!(Facing::West.turn(Direction::Forward), Facing::West);
    assert_eq!(Facing::West.turn(Direction::Backward), Facing::East);
}

#[test]
fn four_right_turns_from_north_end_north() {
    let mut facing = Facing::North;
    let mut seen = Vec::new();
    for _ in 0..4 {
        facing = facing.turn(Direction::Right);
        seen.push(facing);
    }
    assert_eq!(seen, vec![Facing::East, Facing::South, Facing::West, Facing::North]);
}

#[test]
fn four_turns_of_any_kind_come_back() {
    for start in [Facing::North, Facing::South, Facing::East, Facing::West] {
        for direction in
            [Direction::Left, Direction::Right, Direction::Forward, Direction::Backward]
        {
            let mut facing = start;
            for _ in 0..4 {
                facing = facing.turn(direction);
            }
            assert_eq!(facing, start);
        }
    }
}

#[test]
fn turn_left_and_right_agree_with_turn() {
    for facing in [Facing::North, Facing::South, Facing::East, Facing::West] {
        assert_eq!(facing.turn_left(), facing.turn(Direction::Left));
        assert_eq!(facing.turn_right(), facing.turn(Direction::Right));
        assert_eq!(facing.turn_left().turn_right(), facing);
    }
    assert_eq!(Facing::North.turn_left(), Facing::West);
    assert_eq!(Facing::North.turn_right(), Facing::East);
}

#[test]
fn yaw_of_each_facing() {
    assert_eq!(Facing::North.yaw(), -FRAC_PI_2);
    assert_eq!(Facing::South.yaw(), FRAC_PI_2);
    assert_eq!(Facing::East.yaw(), 0);
    assert_eq!(Facing::West.yaw(), PI);
}

#[test]
fn translation_goes_along_the_resolved_facing() {
    assert_eq!(
        get_translation(Facing::North, Direction::Forward, UNIT),
        Vec3 { x: 0, y: 0, z: -UNIT }
    );
    assert_eq!(
        get_translation(Facing::North, Direction::Backward, UNIT),
        Vec3 { x: 0, y: 0, z: UNIT }
    );
    assert_eq!(
        get_translation(Facing::North, Direction::Right, UNIT),
        Vec3 { x: UNIT, y: 0, z: 0 }
    );
    assert_eq!(
        get_translation(Facing::North, Direction::Left, UNIT),
        Vec3 { x: -UNIT, y: 0, z: 0 }
    );
    assert_eq!(
        get_translation(Facing::East, Direction::Left, 2184),
        Vec3 { x: 0, y: 0, z: -2184 }
    );
    assert_eq!(
        get_translation(Facing::West, Direction::Forward, 7),
        Vec3 { x: -7, y: 0, z: 0 }
    );
    assert_eq!(get_translation(Facing::South, Direction::Forward, 0), Vec3 { x: 0, y: 0, z: 0 });
}

#[test]
fn translation_of_the_smallest_amount_saturates_when_negated() {
    assert_eq!(
        get_translation(Facing::North, Direction::Forward, i64::MIN),
        Vec3 { x: 0, y: 0, z: LIMIT }
    );
    assert_eq!(
        get_translation(Facing::South, Direction::Forward, i64::MIN),
        Vec3 { x: 0, y: 0, z: i64::MIN }
    );
}

#[test]
fn vectors_add_axis_by_axis() {
    let a = Vec3::new(1, 2, 3);
    let b = Vec3::new(10, -20, 30);
    assert_eq!(a.plus(b), Vec3 { x: 11, y: -18, z: 33 });
    assert_eq!(Vec3::zero(), Vec3 { x: 0, y: 0, z: 0 });
    assert_eq!(Vec3::new(LIMIT, 0, -LIMIT).plus(Vec3::new(1, 0, -1)), Vec3::new(LIMIT, 0, -LIMIT));
}
