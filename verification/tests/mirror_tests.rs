use agent_viz::mirror::WorldMirror;
use agent_viz::sample::Sample;
use agent_viz::tile::{Terrain, Tile, TileContent};

fn grass() -> Tile {
    Tile { terrain: Terrain::Grass, content: TileContent::Empty }
}

fn grid_10x10_with(row: usize, col: usize, special: Tile) -> WorldMirror {
    let mut grid: Vec<Vec<Tile>> = Vec::new();
    for r in 0..10 {
        let mut line: Vec<Tile> = Vec::new();
        for c in 0..10 {
            if r == row && c == col {
                line.push(special);
            } else {
                line.push(grass());
            }
        }
        grid.push(line);
    }
    WorldMirror::from_grid(grid).unwrap()
}

fn at(row: usize, col: usize) -> Sample {
    Sample { row, col, energy_level: 800, carried_rock_count: 0 }
}

#[test]
fn deep_water_becomes_street_and_costs_three_rocks() {
    // a 10x10 map whose agent tile (0,0) starts as deep water with no content
    let mut m = grid_10x10_with(0, 0, Tile {
        terrain: Terrain::DeepWater,
        content: TileContent::Empty,
    });
    assert!(m.apply_sample(&at(0, 0)));
    assert_eq!(m.grid[0][0], Tile { terrain: Terrain::Street, content: TileContent::Empty });
    assert_eq!(m.carried_rocks, -3);
}

#[test]
fn rock_is_picked_up_once() {
    let mut m = grid_10x10_with(3, 4, Tile {
        terrain: Terrain::Grass,
        content: TileContent::Rock(1),
    });
    assert!(m.apply_sample(&at(3, 4)));
    assert_eq!(m.grid[3][4].content, TileContent::Empty);
    assert_eq!(m.carried_rocks, 1);
    // the same position again: the tile is already cleared, so the counter
    // changes only once
    assert!(m.apply_sample(&at(3, 4)));
    assert_eq!(m.grid[3][4].content, TileContent::Empty);
    assert_eq!(m.grid[3][4].terrain, Terrain::Grass);
    assert_eq!(m.carried_rocks, 1);
}

#[test]
fn zero_quantity_rock_is_not_picked_up() {
    let mut m = grid_10x10_with(5, 5, Tile {
        terrain: Terrain::Sand,
        content: TileContent::Rock(0),
    });
    assert!(m.apply_sample(&at(5, 5)));
    assert_eq!(m.grid[5][5].content, TileContent::Rock(0));
    assert_eq!(m.carried_rocks, 0);
}

#[test]
fn rock_check_and_water_check_both_fire() {
    let mut m = grid_10x10_with(2, 7, Tile {
        terrain: Terrain::DeepWater,
        content: TileContent::Rock(2),
    });
    assert!(m.apply_sample(&at(2, 7)));
    assert_eq!(m.grid[2][7], Tile { terrain: Terrain::Street, content: TileContent::Empty });
    assert_eq!(m.carried_rocks, -2);
    // and visiting once more is a complete no-op
    assert!(m.apply_sample(&at(2, 7)));
    assert_eq!(m.carried_rocks, -2);
}

#[test]
fn out_of_bounds_sample_is_discarded() {
    let mut m = grid_10x10_with(0, 0, Tile {
        terrain: Terrain::DeepWater,
        content: TileContent::Rock(9),
    });
    assert!(!m.apply_sample(&at(10, 0)));
    assert!(!m.apply_sample(&at(0, 10)));
    assert_eq!(m.carried_rocks, 0);
    assert_eq!(m.grid[0][0].terrain, Terrain::DeepWater);
    assert_eq!(m.grid[0][0].content, TileContent::Rock(9));
}

#[test]
fn counter_can_go_negative_across_many_bridges() {
    let mut grid: Vec<Vec<Tile>> = Vec::new();
    let mut line: Vec<Tile> = Vec::new();
    for _ in 0..4 {
        line.push(Tile { terrain: Terrain::DeepWater, content: TileContent::Empty });
    }
    grid.push(line);
    let mut m = WorldMirror::from_grid(grid).unwrap();
    for c in 0..4 {
        assert!(m.apply_sample(&at(0, c)));
    }
    assert_eq!(m.carried_rocks, -12);
}

#[test]
fn ragged_grid_is_refused() {
    let mut grid: Vec<Vec<Tile>> = Vec::new();
    grid.push(vec![grass(), grass()]);
    grid.push(vec![grass()]);
    assert!(WorldMirror::from_grid(grid).is_none());
}

#[test]
fn empty_grid_is_accepted() {
    let grid: Vec<Vec<Tile>> = Vec::new();
    let m = WorldMirror::from_grid(grid).unwrap();
    assert_eq!(m.rows(), 0);
    assert_eq!(m.cols, 0);
}
