//! The static tile map: walls and floors on a grid, built once from text.

use vstd::prelude::*;
use vstd::std_specs::iter::IteratorSpec;
use crate::fixed;
use crate::vector::Vec3;

verus! {

/// Half the extent of the grid: cell coordinates are shifted by this much, so
/// that the map lies around the origin.
pub const OFFSET: i64 = 1048576;

/// The kind of a tile, with the handle of the model that draws it.
pub enum TileSet<M> {
    WALL(M),
    FLOOR(M),
}

impl<M: Copy> TileSet<M> {
    /// The handle of the model that draws this tile.
    pub open spec fn model_spec(self) -> M {
        match self {
            TileSet::WALL(m) => m,
            TileSet::FLOOR(m) => m,
        }
    }

    /// The handle of the model that draws this tile.
    pub fn model(&self) -> (out: M)
        ensures
            out == self.model_spec(),
    {
        match self {
            TileSet::WALL(m) => *m,
            TileSet::FLOOR(m) => *m,
        }
    }
}

/// One tile and the point it occupies.
pub struct Tile<M> {
    pub position: Vec3,
    pub tile: TileSet<M>,
}

/// All tiles of a level, in the order they were added, and the point of its
/// start tile.
pub struct TileMap<M> {
    pub tiles: Vec<Tile<M>>,
    pub start: Vec3,
}

/// Whether one of `tiles` occupies exactly `point`.
pub open spec fn occupied<M>(tiles: Seq<Tile<M>>, point: Vec3) -> bool {
    exists|i: int| 0 <= i < tiles.len() && (#[trigger] tiles[i]).position == point
}

/// How far the reading of a map text has come: the tiles placed, the column
/// and row reached, and the start point found.
pub struct Scan<M> {
    pub tiles: Seq<Tile<M>>,
    pub column: int,
    pub row: int,
    pub start: Vec3,
}

/// The point of the cell at `column` and `row`, at height `y`.
pub open spec fn cell(column: int, y: int, row: int) -> Vec3 {
    Vec3 {
        x: fixed::clamp(column - OFFSET) as i64,
        y: y as i64,
        z: fixed::clamp(row - OFFSET) as i64,
    }
}

/// The scan `s` after one more character.
///
/// `w` moves one cell of `tile_size` to the right and puts a wall there at
/// height zero, with a floor one tile below it. `@` and `.` move one tile to
/// the right and put a floor there, one tile below zero; `@` also makes that
/// point the start. A newline moves one tile down and back to the left
/// edge. Any other character changes nothing.
pub open spec fn place<M>(s: Scan<M>, c: char, tile_size: i64, wall: M, floor: M) -> Scan<M> {
    if c == 'w' {
        let column = fixed::clamp(s.column + tile_size);
        Scan {
            tiles: s.tiles.push(
                Tile { position: cell(column, 0, s.row), tile: TileSet::WALL(wall) },
            ).push(
                Tile {
                    position: cell(column, -crate::TILE_SIZE, s.row),
                    tile: TileSet::FLOOR(floor),
                },
            ),
            column,
            ..s
        }
    } else if c == '@' || c == '.' {
        let column = fixed::clamp(s.column + crate::TILE_SIZE);
        let at = cell(column, -crate::TILE_SIZE, s.row);
        Scan {
            tiles: s.tiles.push(Tile { position: at, tile: TileSet::FLOOR(floor) }),
            column,
            start: if c == '@' {
                at
            } else {
                s.start
            },
            ..s
        }
    } else if c == '\n' {
        Scan { column: 0, row: fixed::clamp(s.row + crate::TILE_SIZE), ..s }
    } else {
        s
    }
}

/// The scan of a whole text, read from the top left corner: nothing
/// placed yet, and the origin for a start.
pub open spec fn scan<M>(data: Seq<char>, tile_size: i64, wall: M, floor: M) -> Scan<M>
    decreases data.len(),
{
    if data.len() == 0 {
        Scan { tiles: Seq::empty(), column: 0, row: 0, start: Vec3 { x: 0, y: 0, z: 0 } }
    } else {
        place(scan(data.drop_last(), tile_size, wall, floor), data.last(), tile_size, wall, floor)
    }
}

impl<M: Copy> TileMap<M> {
    /// The map without tiles, starting at the origin.
    pub fn new() -> (out: Self)
        ensures
            out.tiles@ == Seq::<Tile<M>>::empty(),
            out.start == (Vec3 { x: 0, y: 0, z: 0 }),
    {
        TileMap { tiles: Vec::new(), start: Vec3::new(0, 0, 0) }
    }

    /// Appends a tile at `position`.
    pub fn add_tile(&mut self, tile: TileSet<M>, position: Vec3)
        ensures
            final(self).tiles@ == old(self).tiles@.push(Tile { position, tile }),
            final(self).start == old(self).start,
    {
        let tile = Tile { position, tile };

        self.tiles.push(tile);
    }

    /// Whether a tile occupies exactly `position`.
    pub fn collides(&self, position: Vec3) -> (out: bool)
        ensures
            out == occupied(self.tiles@, position),
    {
        let mut i: usize = 0;
        while i < self.tiles.len()
            invariant
                i <= self.tiles.len(),
                forall|j: int| 0 <= j < i ==> (#[trigger] self.tiles@[j]).position != position,
            decreases self.tiles.len() - i,
        {
            if self.tiles[i].position == position {
                return true;
            }
            i += 1;
        }
        false
    }

    /// Reads the map text `data` and appends its tiles to the map; the start
    /// becomes the one that the text gives.
    pub fn load(&mut self, data: &str, tile_size: i64, wall_id: M, floor_id: M)
        ensures
            final(self).tiles@ == old(self).tiles@ + scan(
                data@,
                tile_size,
                wall_id,
                floor_id,
            ).tiles,
            final(self).start == scan(data@, tile_size, wall_id, floor_id).start,
    {
        broadcast use {vstd::string::axiom_spec_iter, vstd::string::next_postcondition};

        let mut column: i64 = 0;
        let mut row: i64 = 0;
        let mut start = Vec3::new(0, 0, 0);
        let ghost mut read: int = 0;
        let ghost before = self.tiles@;

        let mut chars = data.chars();
        assert(data@.take(0) =~= Seq::<char>::empty());
        loop
            invariant
                0 <= read <= data@.len(),
                chars.remaining() == data@.skip(read),
                chars.obeys_prophetic_iter_laws(),
                fixed::in_range(column as int),
                fixed::in_range(row as int),
                ({
                    let s = scan(data@.take(read), tile_size, wall_id, floor_id);
                    &&& self.tiles@ == before + s.tiles
                    &&& column == s.column
                    &&& row == s.row
                    &&& start == s.start
                }),
            ensures
                read == data@.len(),
                ({
                    let s = scan(data@.take(read), tile_size, wall_id, floor_id);
                    &&& self.tiles@ == before + s.tiles
                    &&& start == s.start
                }),
            decreases data@.len() - read,
        {
            let ghost reached = scan(data@.take(read), tile_size, wall_id, floor_id);
            let next = chars.next();
            let c = match next {
                Some(c) => c,
                None => {
                    break ;
                },
            };
            proof {
                assert(data@.skip(read).len() > 0);
                assert(c == data@[read]);
                assert(data@.take(read + 1).drop_last() =~= data@.take(read));
                assert(data@.take(read + 1).last() == c);
                assert(data@.skip(read).drop_first() =~= data@.skip(read + 1));
            }
            if c == 'w' {
                column = fixed::plus(column, tile_size);
                let x = fixed::minus(column, OFFSET);
                let z = fixed::minus(row, OFFSET);
                self.add_tile(TileSet::WALL(wall_id), Vec3::new(x, 0, z));
                self.add_tile(TileSet::FLOOR(floor_id), Vec3::new(x, -crate::TILE_SIZE, z));
            } else if c == '@' || c == '.' {
                column = fixed::plus(column, crate::TILE_SIZE);
                let x = fixed::minus(column, OFFSET);
                let z = fixed::minus(row, OFFSET);
                let position = Vec3::new(x, -crate::TILE_SIZE, z);
                if c == '@' {
                    start = position;
                }
                self.add_tile(TileSet::FLOOR(floor_id), position);
            } else if c == '\n' {
                row = fixed::plus(row, crate::TILE_SIZE);
                column = 0;
            }
            proof {
                let after = place(reached, c, tile_size, wall_id, floor_id);
                assert(self.tiles@ =~= before + after.tiles);
                read = read + 1;
            }
        }
        proof {
            assert(data@.take(read) =~= data@);
        }

        self.start = start;
    }
}

} // verus!
