//! Tiles of the locally mirrored world: a terrain kind and an optional
//! content. The mirror owns all mutation; tiles themselves are plain values.

use vstd::prelude::*;

verus! {

/// The terrain of one grid cell.
#[derive(Clone, Copy, Debug, PartialEq, Eq, Structural)]
pub enum Terrain {
    DeepWater,
    ShallowWater,
    Grass,
    Hill,
    Sand,
    Lava,
    Snow,
    Mountain,
    Street,
}

/// What lies on top of a tile: nothing, or a rock deposit with a quantity.
#[derive(Clone, Copy, Debug, PartialEq, Eq, Structural)]
pub enum TileContent {
    Empty,
    Rock(u64),
}

/// One cell of the mirrored map.
#[derive(Clone, Copy, Debug, PartialEq, Eq, Structural)]
pub struct Tile {
    pub terrain: Terrain,
    pub content: TileContent,
}

} // verus!
