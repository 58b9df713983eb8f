use agent_viz::input::{InputController, KeyState};
use agent_viz::viewport::Viewport;

fn no_keys() -> KeyState {
    KeyState::released()
}

#[test]
fn zoom_in_key_scales_once() {
    let mut vp = Viewport::new(1500, 1500, 10, 10);
    let mut ctl = InputController::new();
    let keys = KeyState { zoom_in: true, ..no_keys() };
    ctl.apply(&keys, &mut vp);
    assert_eq!(vp.scale_x, 165_000);
    assert!(ctl.handled);
}

#[test]
fn held_key_acts_at_most_once_per_frame() {
    let mut vp = Viewport::new(1500, 1500, 10, 10);
    let mut ctl = InputController::new();
    let keys = KeyState { zoom_in: true, ..no_keys() };
    // several update ticks within one rendered frame
    ctl.apply(&keys, &mut vp);
    ctl.apply(&keys, &mut vp);
    ctl.apply(&keys, &mut vp);
    assert_eq!(vp.scale_x, 165_000);
    // the next frame re-arms the latch and the held key acts once more
    ctl.begin_frame();
    ctl.apply(&keys, &mut vp);
    assert_eq!(vp.scale_x, 181_500);
}

#[test]
fn no_keys_leave_latch_open_and_camera_still() {
    let mut vp = Viewport::new(1500, 1500, 10, 10);
    let mut ctl = InputController::new();
    ctl.apply(&no_keys(), &mut vp);
    assert!(!ctl.handled);
    assert_eq!(vp.scale_x, 150_000);
    assert_eq!(vp.pan_x, 0);
    assert_eq!(vp.pan_y, 0);
}

#[test]
fn directional_keys_pan_one_tile() {
    let mut vp = Viewport::new(1500, 1500, 10, 10);
    let mut ctl = InputController::new();
    // zoom in twice so there is room to pan
    ctl.apply(&KeyState { zoom_in: true, ..no_keys() }, &mut vp);
    ctl.begin_frame();
    ctl.apply(&KeyState { zoom_in: true, ..no_keys() }, &mut vp);
    assert_eq!(vp.scale_x, 181_500);
    ctl.begin_frame();
    ctl.apply(&KeyState { pan_right: true, pan_down: true, ..no_keys() }, &mut vp);
    assert_eq!(vp.pan_x, 1000);
    assert_eq!(vp.pan_y, 1000);
    ctl.begin_frame();
    ctl.apply(&KeyState { pan_left: true, pan_up: true, ..no_keys() }, &mut vp);
    assert_eq!(vp.pan_x, 0);
    assert_eq!(vp.pan_y, 0);
}

#[test]
fn held_zoom_out_key_stops_at_the_minimum_scale() {
    // the zoom-out key held across many frames, past the point where
    // scale = screen/map: every further request leaves the scale at that
    // exact minimum
    let mut vp = Viewport::new(1500, 1500, 10, 10);
    let mut ctl = InputController::new();
    ctl.apply(&KeyState { zoom_in: true, ..no_keys() }, &mut vp);
    assert_eq!(vp.scale_x, 165_000);
    for _ in 0..10 {
        ctl.begin_frame();
        ctl.apply(&KeyState { zoom_out: true, ..no_keys() }, &mut vp);
        assert_eq!(vp.scale_x, 150_000);
        assert_eq!(vp.scale_y, 150_000);
    }
}
