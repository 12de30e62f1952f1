//! The static tile grid that moving entities collide with.
use vstd::prelude::*;

verus! {

/// A tile position in tile space; may lie outside the map.
#[derive(Clone, Copy, Debug, PartialEq, Eq, Hash, Structural)]
pub struct TilePos {
    pub x: i32,
    pub y: i32,
}

/// The width and height of a map, in tiles.
#[derive(Clone, Copy, Debug, PartialEq, Eq, Hash, Structural, Default)]
pub struct MapSize {
    pub x: u32,
    pub y: u32,
}

impl TilePos {
    pub fn new(x: i32, y: i32) -> (r: TilePos)
        ensures
            r.x == x && r.y == y,
    {
        TilePos { x, y }
    }
}

impl MapSize {
    pub fn new(x: u32, y: u32) -> (r: MapSize)
        ensures
            r.x == x && r.y == y,
    {
        MapSize { x, y }
    }
}

/// The tile id at `pos` of a row-major grid: none outside the map, or where
/// the data ends early.
pub open spec fn tile_at(size: MapSize, data: Seq<u16>, pos: TilePos) -> Option<u16> {
    if pos.x < 0 || pos.y < 0 || pos.x >= size.x || pos.y >= size.y {
        None
    } else if pos.y * size.x + pos.x < data.len() {
        Some(data[pos.y * size.x + pos.x])
    } else {
        None
    }
}

/// The collision layer of a level: tile ids in rows, `size.x` to a row.
/// A tile id of zero is empty.
pub struct CollisionMap {
    pub name: String,
    pub size: MapSize,
    pub data: Vec<u16>,
}

impl CollisionMap {
    pub fn new(name: String, size: MapSize, data: Vec<u16>) -> (r: CollisionMap)
        ensures
            r.name == name,
            r.size == size,
            r.data@ == data@,
    {
        CollisionMap { name, size, data }
    }

    /// The tile id at `pos`, if `pos` lies in the map.
    pub fn get(&self, pos: TilePos) -> (r: Option<u16>)
        ensures
            r == tile_at(self.size, self.data@, pos),
    {
        if pos.x < 0 || pos.y < 0 || pos.x as u32 >= self.size.x || pos.y as u32 >= self.size.y {
            return None;
        }
        let row = pos.y as u64;
        let width = self.size.x as u64;
        proof {
            assert(row * width <= 0xffff_ffff * 0xffff_ffffu64) by (nonlinear_arith)
                requires
                    row <= 0xffff_ffff,
                    width <= 0xffff_ffff,
            ;
        }
        let index = row * width + pos.x as u64;
        if index < self.data.len() as u64 {
            Some(self.data[index as usize])
        } else {
            None
        }
    }

    /// The tile at `pos` lies in the map and is not empty.
    pub fn is_solid(&self, pos: TilePos) -> (r: bool)
        ensures
            r == (tile_at(self.size, self.data@, pos) matches Some(t) && t != 0),
    {
        match self.get(pos) {
            Some(t) => t != 0,
            None => false,
        }
    }
}

/// Decides which tiles of a map block movement.
pub trait CollisionRule {
    fn is_collide(&self, map: &CollisionMap, pos: TilePos) -> bool;
}

/// Every non-empty tile blocks movement.
#[derive(Clone, Copy, Debug, Default)]
pub struct DefaultCollisionRule;

impl CollisionRule for DefaultCollisionRule {
    fn is_collide(&self, map: &CollisionMap, pos: TilePos) -> bool {
        map.is_solid(pos)
    }
}

} // verus!
