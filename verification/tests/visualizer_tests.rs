use agent_viz::channel::TelemetryChannel;
use agent_viz::input::KeyState;
use agent_viz::mirror::WorldMirror;
use agent_viz::motion::Classification;
use agent_viz::sample::Sample;
use agent_viz::tile::{Terrain, Tile, TileContent};
use agent_viz::viewport::Viewport;
use agent_viz::visualizer::Visualizer;

fn demo_world() -> Visualizer {
    let mut grid: Vec<Vec<Tile>> = Vec::new();
    for r in 0..10 {
        let mut line: Vec<Tile> = Vec::new();
        for c in 0..10 {
            let tile = if r == 0 && c == 0 {
                Tile { terrain: Terrain::DeepWater, content: TileContent::Empty }
            } else if r == 1 && c == 2 {
                Tile { terrain: Terrain::Grass, content: TileContent::Rock(1) }
            } else {
                Tile { terrain: Terrain::Grass, content: TileContent::Empty }
            };
            line.push(tile);
        }
        grid.push(line);
    }
    let mirror = WorldMirror::from_grid(grid).unwrap();
    let viewport = Viewport::new(1500, 1500, 10, 10);
    Visualizer::new(mirror, viewport)
}

fn at(row: usize, col: usize) -> Sample {
    Sample { row, col, energy_level: 700, carried_rock_count: 0 }
}

#[test]
fn frame_consumes_one_sample_and_updates_everything() {
    let mut viz = demo_world();
    let mut ch = TelemetryChannel::new(4);
    ch.send(at(1, 2));
    ch.send(at(0, 0));

    let keys = KeyState { zoom_in: true, ..KeyState::released() };
    let discarded = viz.frame(&mut ch, &keys, 100);
    assert!(!discarded);
    // exactly one sample consumed, the oldest
    assert_eq!(ch.len(), 1);
    // the rock at (1,2) was speculatively picked up
    assert_eq!(viz.mirror.grid[1][2].content, TileContent::Empty);
    assert_eq!(viz.mirror.carried_rocks, 1);
    // the classifier saw a fresh position
    assert_eq!(viz.classifier.classification, Classification::Moving);
    // the held key zoomed the camera once
    assert_eq!(viz.viewport.scale_x, 165_000);
    // the gauge now shows the sample's energy
    assert_eq!(viz.last_energy, 700);

    // next frame: the bridge sample, no keys
    let discarded = viz.frame(&mut ch, &KeyState::released(), 200);
    assert!(!discarded);
    assert_eq!(ch.len(), 0);
    assert_eq!(viz.mirror.grid[0][0].terrain, Terrain::Street);
    assert_eq!(viz.mirror.carried_rocks, -2);
    assert_eq!(viz.viewport.scale_x, 165_000);
}

#[test]
fn frame_with_empty_channel_changes_only_the_camera() {
    let mut viz = demo_world();
    let mut ch = TelemetryChannel::new(4);
    let discarded = viz.frame(&mut ch, &KeyState { pan_right: true, ..KeyState::released() }, 0);
    assert!(!discarded);
    assert_eq!(viz.mirror.carried_rocks, 0);
    assert_eq!(viz.classifier.classification, Classification::Unknown);
}

#[test]
fn out_of_bounds_sample_is_reported_discarded() {
    let mut viz = demo_world();
    let mut ch = TelemetryChannel::new(4);
    ch.send(at(99, 99));
    let discarded = viz.frame(&mut ch, &KeyState::released(), 0);
    assert!(discarded);
    // rendering continues with the last successfully applied state:
    // nothing was mutated — not the map, not the counter, not the
    // classifier, not the shown energy
    assert_eq!(viz.mirror.carried_rocks, 0);
    assert_eq!(viz.mirror.grid[0][0].terrain, Terrain::DeepWater);
    assert_eq!(viz.classifier.classification, Classification::Unknown);
    assert_eq!(viz.classifier.last_change_ms, None);
    assert_eq!(viz.classifier.last_row, 0);
    assert_eq!(viz.classifier.last_col, 0);
    assert_eq!(viz.last_energy, 0);
}

#[test]
fn idle_emerges_across_frames() {
    let mut viz = demo_world();
    let mut ch = TelemetryChannel::new(4);
    let quiet = KeyState::released();
    ch.send(at(4, 4));
    viz.frame(&mut ch, &quiet, 0);
    ch.send(at(4, 4));
    viz.frame(&mut ch, &quiet, 1500);
    assert_eq!(viz.classifier.classification, Classification::Moving);
    ch.send(at(4, 4));
    viz.frame(&mut ch, &quiet, 3200);
    assert_eq!(viz.classifier.classification, Classification::Idle);
    assert!(viz.classifier.is_idle());
}
