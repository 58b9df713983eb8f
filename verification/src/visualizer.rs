//! The per-frame orchestrator.
//!
//! Each rendered frame, in this order: the input latch is re-armed, the
//! telemetry channel is polled once (non-blocking, at most one sample
//! consumed), the sample — if any — is fed to the world mirror and the
//! motion classifier (an out-of-bounds sample is discarded and mutates
//! nothing at all), and this frame's held keys are applied to the camera.
//! Drawing itself is the caller's concern: it reads the mirror, the
//! classifier and the camera after the frame step.

use vstd::prelude::*;

use crate::channel::TelemetryChannel;
use crate::input::{InputController, KeyState, keys_applied};
use crate::mirror::{WorldMirror, grid_after_visit, visit_delta};
use crate::motion::MotionClassifier;
use crate::viewport::Viewport;

verus! {

/// Owns every piece of state the visualization context mutates: the
/// mirrored map, the motion classifier, the camera and the input latch.
pub struct Visualizer {
    /// The locally held map copy and rock counter.
    pub mirror: WorldMirror,
    /// The moving/idle state machine.
    pub classifier: MotionClassifier,
    /// The camera transform.
    pub viewport: Viewport,
    /// The once-per-frame key latch.
    pub input: InputController,
    /// Energy reported by the most recent sample (zero before any): what
    /// the energy gauge shows.
    pub last_energy: u64,
}

impl Visualizer {
    /// The mirror's grid is rectangular, the camera window sits inside the
    /// map, and the camera's map is the mirrored map: their dimensions
    /// agree and never change.
    pub open spec fn wf(self) -> bool {
        &&& self.mirror.wf()
        &&& self.viewport.wf()
        &&& self.viewport.map_w == self.mirror.cols
        &&& self.viewport.map_h == self.mirror.grid_view().len()
    }

    /// A visualizer over a freshly generated map and camera: classifier in
    /// its initial state, input latch open.
    pub fn new(mirror: WorldMirror, viewport: Viewport) -> (v: Visualizer)
        requires
            mirror.wf(),
            viewport.wf(),
            viewport.map_w == mirror.cols,
            viewport.map_h == mirror.grid_view().len(),
        ensures
            v.wf(),
            v.mirror == mirror,
            v.viewport == viewport,
            v.classifier == MotionClassifier::initial(),
            !v.input.handled,
            v.last_energy == 0,
    {
        Visualizer {
            mirror,
            classifier: MotionClassifier::new(),
            viewport,
            input: InputController::new(),
            last_energy: 0,
        }
    }

    /// Advances everything by one rendered frame at time `now_ms` with the
    /// keys held this frame. Returns whether a sample was polled but
    /// discarded for being out of the map's bounds; the caller may log a
    /// discarded sample, which mutates no state — not the mirror, not the
    /// classifier, not the shown energy — so rendering continues from the
    /// last successfully applied state.
    pub fn frame(&mut self, channel: &mut TelemetryChannel, keys: &KeyState, now_ms: u64) -> (discarded: bool)
        requires
            old(self).wf(),
            old(channel).wf(),
            i64::MIN + 3 <= old(self).mirror.carried_rocks <= i64::MAX - 1,
        ensures
            final(self).wf(),
            final(channel).wf(),
            old(channel)@.len() == 0 ==> final(channel)@ == old(channel)@,
            old(channel)@.len() > 0 ==> final(channel)@ == old(channel)@.subrange(
                1,
                old(channel)@.len() as int,
            ),
            final(self).viewport == keys_applied(old(self).viewport, *keys),
            final(self).input.handled == keys.any(),
            old(channel)@.len() == 0 ==> final(self).mirror == old(self).mirror
                && final(self).classifier == old(self).classifier && final(self).last_energy
                == old(self).last_energy && !discarded,
            old(channel)@.len() > 0 ==> ({
                let s = old(channel)@[0];
                &&& discarded == !old(self).mirror.in_bounds(s.row as int, s.col as int)
                &&& (discarded ==> final(self).mirror == old(self).mirror
                    && final(self).classifier == old(self).classifier
                    && final(self).last_energy == old(self).last_energy)
                &&& (!discarded ==> final(self).classifier == old(self).classifier.observed(
                    s.row,
                    s.col,
                    now_ms,
                ) && final(self).last_energy == s.energy_level)
                &&& (!discarded ==> final(self).mirror.grid_view() == grid_after_visit(
                    old(self).mirror.grid_view(),
                    s.row as int,
                    s.col as int,
                ) && final(self).mirror.carried_rocks == old(self).mirror.carried_rocks
                    + visit_delta(
                    old(self).mirror.grid_view()[s.row as int][s.col as int],
                ) && final(self).mirror.cols == old(self).mirror.cols)
            }),
    {
        self.input.begin_frame();
        let polled = channel.try_receive();
        let mut discarded = false;
        match polled {
            Some(s) => {
                let applied = self.mirror.apply_sample(&s);
                discarded = !applied;
                if applied {
                    self.classifier.observe(&s, now_ms);
                    self.last_energy = s.energy_level;
                }
            },
            None => {},
        }
        self.input.apply(keys, &mut self.viewport);
        discarded
    }
}

} // verus!
