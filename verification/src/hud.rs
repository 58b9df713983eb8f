//! Pure helpers for the heads-up display: the energy gauge, the carried
//! rock icon row, and the terrain-to-sprite table.

use vstd::arithmetic::div_mod::{lemma_div_is_ordered, lemma_div_multiples_vanish};
use vstd::prelude::*;

use crate::tile::Terrain;

verus! {

/// Number of terrain sprite slots the renderer must provide: one per
/// terrain variant.
pub const TERRAIN_SPRITE_COUNT: usize = 9;

/// The sprite slot of each terrain. A single exhaustive match: adding a
/// terrain variant without a slot fails to compile, so the table provably
/// covers every variant.
pub open spec fn terrain_sprite_slot_spec(t: Terrain) -> int {
    match t {
        Terrain::DeepWater => 0,
        Terrain::ShallowWater => 1,
        Terrain::Grass => 2,
        Terrain::Hill => 3,
        Terrain::Sand => 4,
        Terrain::Lava => 5,
        Terrain::Snow => 6,
        Terrain::Mountain => 7,
        Terrain::Street => 8,
    }
}

/// Looks the terrain's sprite slot up; always a valid index into a table
/// of [`TERRAIN_SPRITE_COUNT`] sprites.
pub fn terrain_sprite_slot(t: Terrain) -> (slot: usize)
    ensures
        slot == terrain_sprite_slot_spec(t),
        slot < TERRAIN_SPRITE_COUNT,
{
    match t {
        Terrain::DeepWater => 0,
        Terrain::ShallowWater => 1,
        Terrain::Grass => 2,
        Terrain::Hill => 3,
        Terrain::Sand => 4,
        Terrain::Lava => 5,
        Terrain::Snow => 6,
        Terrain::Mountain => 7,
        Terrain::Street => 8,
    }
}

/// The filled width of the energy gauge: the energy level scaled linearly
/// into `[0, max_width]`, saturating at full.
pub open spec fn gauge_width_spec(energy: u64, max_energy: u64, max_width: u64) -> int {
    if energy >= max_energy {
        max_width as int
    } else {
        energy * max_width / (max_energy as int)
    }
}

/// Computes the gauge's filled width in pixels; never wider than the
/// gauge itself.
pub fn gauge_width(energy_level: u64, max_energy: u64, max_width: u64) -> (w: u64)
    requires
        1 <= max_energy <= 1_000_000_000,
        max_width <= 1_000_000_000,
    ensures
        w == gauge_width_spec(energy_level, max_energy, max_width),
        w <= max_width,
{
    if energy_level >= max_energy {
        max_width
    } else {
        proof {
            assert(energy_level * max_width <= max_energy * max_width) by (nonlinear_arith)
                requires
                    energy_level <= max_energy,
                    max_width >= 0,
            ;
            assert(max_energy * max_width <= 0xDE0B6B3A7640000) by (nonlinear_arith)
                requires
                    max_energy <= 1_000_000_000,
                    max_width <= 1_000_000_000,
            ;
            lemma_div_is_ordered(
                energy_level * max_width,
                max_energy * max_width,
                max_energy as int,
            );
            assert(max_energy * max_width == (max_energy as int) * (max_width as int))
                by (nonlinear_arith);
            lemma_div_multiples_vanish(max_width as int, max_energy as int);
        }
        energy_level * max_width / max_energy
    }
}

/// How many rock icons the carried-rock row shows: the running counter,
/// with a negative count showing no icons at all.
pub fn rock_icon_count(carried_rocks: i64) -> (n: u64)
    ensures
        carried_rocks >= 0 ==> n == carried_rocks,
        carried_rocks < 0 ==> n == 0,
{
    if carried_rocks < 0 {
        0
    } else {
        carried_rocks as u64
    }
}

} // verus!
