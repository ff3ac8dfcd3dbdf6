use blobber::fixed::{LIMIT, UNIT};
use blobber::map::{Tile, TileMap, TileSet, OFFSET};
use blobber::vector::Vec3;

fn kinds(map: &TileMap<u8>) -> Vec<(bool, u8, Vec3)> {
    map.tiles
        .iter()
        .map(|t: &Tile<u8>| match t.tile {
            TileSet::WALL(m) => (true, m, t.position),
            TileSet::FLOOR(m) => (false, m, t.position),
        })
        .collect()
}

#[test]
fn offset_is_sixteen_tiles() {
    assert_eq!(OFFSET, 16 * UNIT);
}

#[test]
fn model_gives_the_handle() {
    assert_eq!(TileSet::WALL(7u8).model(), 7);
    assert_eq!(TileSet::FLOOR(9u8).model(), 9);
}

#[test]
fn new_map_is_empty() {
    let map: TileMap<u8> = TileMap::new();
    assert!(map.tiles.is_empty());
    assert_eq!(map.start, Vec3 { x: 0, y: 0, z: 0 });
    assert!(!map.collides(Vec3::new(0, 0, 0)));
}

#[test]
fn add_tile_appends() {
    let mut map: TileMap<u8> = TileMap::new();
    map.add_tile(TileSet::FLOOR(1), Vec3::new(1, 2, 3));
    map.add_tile(TileSet::WALL(2), Vec3::new(4, 5, 6));
    assert_eq!(
        kinds(&map),
        vec![(false, 1, Vec3::new(1, 2, 3)), (true, 2, Vec3::new(4, 5, 6))]
    );
    assert_eq!(map.start, Vec3::new(0, 0, 0));
}

#[test]
fn collides_only_at_the_exact_point() {
    let mut map: TileMap<u8> = TileMap::new();
    map.add_tile(TileSet::WALL(2), Vec3::new(UNIT, 0, -UNIT));
    map.add_tile(TileSet::FLOOR(1), Vec3::new(UNIT, -UNIT, -UNIT));
    assert!(map.collides(Vec3::new(UNIT, 0, -UNIT)));
    assert!(map.collides(Vec3::new(UNIT, -UNIT, -UNIT)));
    assert!(!map.collides(Vec3::new(UNIT, 1, -UNIT)));
    assert!(!map.collides(Vec3::new(UNIT + 1, 0, -UNIT)));
    assert!(!map.collides(Vec3::new(UNIT, 0, UNIT)));
}

#[test]
fn load_wall_over_start() {
    let mut map: TileMap<u8> = TileMap::new();
    map.load("w\n@\n", UNIT, 1, 2);
    let column = UNIT - OFFSET;
    let row0 = -OFFSET;
    let row1 = UNIT - OFFSET;
    assert_eq!(
        kinds(&map),
        vec![
            (true, 1, Vec3::new(column, 0, row0)),
            (false, 2, Vec3::new(column, -UNIT, row0)),
            (false, 2, Vec3::new(column, -UNIT, row1)),
        ]
    );
    assert_eq!(map.start, map.tiles[2].position);
    assert_eq!(map.start, Vec3 { x: -983040, y: -65536, z: -983040 });
}

#[test]
fn load_skips_what_it_does_not_know() {
    let mut map: TileMap<u8> = TileMap::new();
    map.load("a. \t\u{e9}.x\r", UNIT, 1, 2);
    assert_eq!(
        kinds(&map),
        vec![
            (false, 2, Vec3::new(UNIT - OFFSET, -UNIT, -OFFSET)),
            (false, 2, Vec3::new(2 * UNIT - OFFSET, -UNIT, -OFFSET)),
        ]
    );
    assert_eq!(map.start, Vec3::new(0, 0, 0));
}

#[test]
fn load_of_nothing_resets_the_start() {
    let mut map: TileMap<u8> = TileMap::new();
    map.load("@", UNIT, 1, 2);
    assert_eq!(map.start, Vec3::new(UNIT - OFFSET, -UNIT, -OFFSET));
    map.load("", UNIT, 1, 2);
    assert_eq!(map.tiles.len(), 1);
    assert_eq!(map.start, Vec3::new(0, 0, 0));
}

#[test]
fn load_appends_to_the_tiles_there() {
    let mut map: TileMap<u8> = TileMap::new();
    map.add_tile(TileSet::WALL(9), Vec3::new(5, 5, 5));
    map.load(".", UNIT, 1, 2);
    assert_eq!(
        kinds(&map),
        vec![(true, 9, Vec3::new(5, 5, 5)), (false, 2, Vec3::new(UNIT - OFFSET, -UNIT, -OFFSET))]
    );
}

#[test]
fn load_takes_the_last_start() {
    let mut map: TileMap<u8> = TileMap::new();
    map.load("@.\n.@", UNIT, 1, 2);
    assert_eq!(map.tiles.len(), 4);
    assert_eq!(map.start, Vec3::new(2 * UNIT - OFFSET, -UNIT, UNIT - OFFSET));
}

#[test]
fn load_steps_walls_by_the_given_size() {
    let mut map: TileMap<u8> = TileMap::new();
    map.load("w.w", 3 * UNIT, 1, 2);
    let xs: Vec<i64> = map.tiles.iter().map(|t| t.position.x).collect();
    assert_eq!(
        xs,
        vec![
            3 * UNIT - OFFSET,
            3 * UNIT - OFFSET,
            4 * UNIT - OFFSET,
            7 * UNIT - OFFSET,
            7 * UNIT - OFFSET
        ]
    );
}

#[test]
fn load_saturates_far_columns() {
    let mut map: TileMap<u8> = TileMap::new();
    map.load("ww", LIMIT, 1, 2);
    let xs: Vec<i64> = map.tiles.iter().map(|t| t.position.x).collect();
    assert_eq!(xs, vec![LIMIT - OFFSET, LIMIT - OFFSET, LIMIT - OFFSET, LIMIT - OFFSET]);
}

#[test]
fn loaded_walls_collide_and_gaps_do_not() {
    let mut map: TileMap<u8> = TileMap::new();
    map.load("w w\n", UNIT, 1, 2);
    assert!(map.collides(Vec3::new(UNIT - OFFSET, 0, -OFFSET)));
    assert!(map.collides(Vec3::new(2 * UNIT - OFFSET, 0, -OFFSET)));
    assert!(!map.collides(Vec3::new(3 * UNIT - OFFSET, 0, -OFFSET)));
}
