//! Placing a voxel of a model in the world, facing one of four directions.

use vstd::prelude::*;

verus! {

/// The direction a build faces; `North` is the default.
#[derive(Clone, Copy, PartialEq, Eq, Structural, Debug)]
pub enum Direction {
    North,
    South,
    East,
    West,
}

/// A position in the world.
#[derive(Clone, Copy, PartialEq, Eq, Structural, Debug)]
pub struct Location {
    pub x: u32,
    pub y: u32,
    pub z: u32,
}

/// Where a voxel at local `(lx, ly, lz)` of a model of extent `(ex, ey, ez)` lands,
/// before any bound on world coordinates: the vertical axis is kept and the
/// horizontal ones are turned by the direction.
pub open spec fn world_coords(
    lx: int,
    ly: int,
    lz: int,
    ex: int,
    ey: int,
    d: Direction,
    base: Location,
) -> (int, int, int) {
    match d {
        Direction::North => (base.x + ly, base.y + lz, base.z + lx),
        Direction::West => (base.x + lx, base.y + lz, base.z + (ex - ly)),
        Direction::East => (base.x + (ey - lx), base.y + lz, base.z + ly),
        Direction::South => (base.x + (ey - ly), base.y + lz, base.z + (ex - lx)),
    }
}

pub open spec fn fits_u32(v: int) -> bool {
    0 <= v <= u32::MAX
}

/// The world position of a voxel, or `None` where one of its coordinates would
/// fall below zero or above `u32::MAX`. The arithmetic is signed: a local
/// coordinate past the model's extent turns the offset negative, which is
/// accepted as long as the world coordinate itself stays in range.
pub fn world_position(
    lx: u32,
    ly: u32,
    lz: u32,
    ex: u32,
    ey: u32,
    d: Direction,
    base: Location,
) -> (r: Option<Location>)
    ensures
        ({
            let w = world_coords(lx as int, ly as int, lz as int, ex as int, ey as int, d, base);
            if fits_u32(w.0) && fits_u32(w.1) && fits_u32(w.2) {
                r == Some(Location { x: w.0 as u32, y: w.1 as u32, z: w.2 as u32 })
            } else {
                r is None
            }
        }),
{
    let (lx, ly, lz, ex, ey) = (lx as i64, ly as i64, lz as i64, ex as i64, ey as i64);
    let (ox, oz): (i64, i64) = match d {
        Direction::North => (ly, lx),
        Direction::West => (lx, ex - ly),
        Direction::East => (ey - lx, ly),
        Direction::South => (ey - ly, ex - lx),
    };
    let x = base.x as i64 + ox;
    let y = base.y as i64 + lz;
    let z = base.z as i64 + oz;
    if 0 <= x && x <= u32::MAX as i64 && 0 <= y && y <= u32::MAX as i64 && 0 <= z && z
        <= u32::MAX as i64 {
        Some(Location { x: x as u32, y: y as u32, z: z as u32 })
    } else {
        None
    }
}

} // verus!
