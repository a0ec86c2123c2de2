//! Map tiles and the tile grid: each tile knows its sprite, whether it blocks
//! movement, and whether something stands on it.

use vstd::prelude::*;

verus! {

pub struct Tile {
    pub sprite_key: String,
    pub x: usize,
    pub y: usize,
    pub blocking: bool,
    pub occupied: bool,
}

impl Tile {
    pub fn new(sprite_key: String, x: usize, y: usize, blocking: bool) -> (t: Self)
        ensures
            t.sprite_key == sprite_key,
            t.x == x,
            t.y == y,
            t.blocking == blocking,
            !t.occupied,
    {
        Self { sprite_key, x, y, blocking, occupied: false }
    }

    pub fn set_occupied(&mut self)
        ensures
            *final(self) == (Tile { occupied: true, ..*old(self) }),
    {
        self.occupied = true;
    }

    pub fn set_unoccupied(&mut self)
        ensures
            *final(self) == (Tile { occupied: false, ..*old(self) }),
    {
        self.occupied = false;
    }

    /// A tile can be walked onto exactly when it neither blocks nor is
    /// occupied.
    pub fn is_walkable(&self) -> (r: bool)
        ensures
            r == (!self.blocking && !self.occupied),
    {
        if self.blocking || self.occupied {
            return false;
        }
        true
    }

    pub fn get_sprite_key(&self) -> (r: &String)
        ensures
            r == self.sprite_key,
    {
        &self.sprite_key
    }
}

pub struct TileGrid {
    pub tiles: Vec<Vec<Tile>>,
}

impl TileGrid {
    pub fn new(tiles: Vec<Vec<Tile>>) -> (g: Self)
        ensures
            g.tiles == tiles,
    {
        Self { tiles }
    }

    /// Mark the tile at column `x` of row `y` occupied; every other tile
    /// keeps its state. Addressing a tile outside the grid is a configuration
    /// error and is ruled out.
    pub fn set_occupied(&mut self, x: usize, y: usize)
        requires
            (y as int) < old(self).tiles@.len(),
            (x as int) < old(self).tiles@[y as int]@.len(),
        ensures
            final(self).tiles@.len() == old(self).tiles@.len(),
            forall|r: int|
                0 <= r < old(self).tiles@.len() ==> (#[trigger] final(self).tiles@[r])@.len()
                    == old(self).tiles@[r]@.len(),
            forall|r: int, c: int|
                0 <= r < old(self).tiles@.len() && 0 <= c < old(self).tiles@[r]@.len()
                    ==> #[trigger] final(self).tiles@[r]@[c] == (if r == y && c == x {
                    Tile { occupied: true, ..old(self).tiles@[r]@[c] }
                } else {
                    old(self).tiles@[r]@[c]
                }),
    {
        let tile = &mut self.tiles[y][x];
        tile.set_occupied();
    }

    /// Mark the tile at column `x` of row `y` free again.
    pub fn set_unoccupied(&mut self, x: usize, y: usize)
        requires
            (y as int) < old(self).tiles@.len(),
            (x as int) < old(self).tiles@[y as int]@.len(),
        ensures
            final(self).tiles@.len() == old(self).tiles@.len(),
            forall|r: int|
                0 <= r < old(self).tiles@.len() ==> (#[trigger] final(self).tiles@[r])@.len()
                    == old(self).tiles@[r]@.len(),
            forall|r: int, c: int|
                0 <= r < old(self).tiles@.len() && 0 <= c < old(self).tiles@[r]@.len()
                    ==> #[trigger] final(self).tiles@[r]@[c] == (if r == y && c == x {
                    Tile { occupied: false, ..old(self).tiles@[r]@[c] }
                } else {
                    old(self).tiles@[r]@[c]
                }),
    {
        let tile = &mut self.tiles[y][x];
        tile.set_unoccupied();
    }

    /// Whether the tile at column `x` of row `y` can be walked onto.
    pub fn is_tile_empty(&self, x: usize, y: usize) -> (r: bool)
        requires
            (y as int) < self.tiles@.len(),
            (x as int) < self.tiles@[y as int]@.len(),
        ensures
            r == (!self.tiles@[y as int]@[x as int].blocking
                && !self.tiles@[y as int]@[x as int].occupied),
    {
        self.tiles[y][x].is_walkable()
    }

    pub fn row_count(&self) -> (r: usize)
        ensures
            r as int == self.tiles@.len(),
    {
        self.tiles.len()
    }

    pub fn row_len(&self, y: usize) -> (r: usize)
        requires
            (y as int) < self.tiles@.len(),
        ensures
            r as int == self.tiles@[y as int]@.len(),
    {
        self.tiles[y].len()
    }

    pub fn get_tile(&self, x: usize, y: usize) -> (r: &Tile)
        requires
            (y as int) < self.tiles@.len(),
            (x as int) < self.tiles@[y as int]@.len(),
        ensures
            r == self.tiles@[y as int]@[x as int],
    {
        &self.tiles[y][x]
    }
}

} // verus!
