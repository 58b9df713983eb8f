use agent_viz::hud::{TERRAIN_SPRITE_COUNT, gauge_width, rock_icon_count, terrain_sprite_slot};
use agent_viz::tile::Terrain;

#[test]
fn gauge_scales_energy_linearly() {
    // a 1000-energy agent over a 200 px gauge: 5 energy per pixel
    assert_eq!(gauge_width(0, 1000, 200), 0);
    assert_eq!(gauge_width(500, 1000, 200), 100);
    assert_eq!(gauge_width(999, 1000, 200), 199);
    assert_eq!(gauge_width(1000, 1000, 200), 200);
}

#[test]
fn gauge_saturates_at_full_width() {
    assert_eq!(gauge_width(4000, 1000, 200), 200);
    assert_eq!(gauge_width(u64::MAX, 1000, 200), 200);
}

#[test]
fn every_terrain_has_a_sprite_slot() {
    let all = [
        Terrain::DeepWater,
        Terrain::ShallowWater,
        Terrain::Grass,
        Terrain::Hill,
        Terrain::Sand,
        Terrain::Lava,
        Terrain::Snow,
        Terrain::Mountain,
        Terrain::Street,
    ];
    let mut seen = [false; TERRAIN_SPRITE_COUNT];
    for t in all {
        let slot = terrain_sprite_slot(t);
        assert!(slot < TERRAIN_SPRITE_COUNT);
        assert!(!seen[slot]);
        seen[slot] = true;
    }
    assert!(seen.iter().all(|s| *s));
}

#[test]
fn negative_rock_counter_shows_no_icons() {
    assert_eq!(rock_icon_count(-5), 0);
    assert_eq!(rock_icon_count(0), 0);
    assert_eq!(rock_icon_count(7), 7);
}
