//! Key-to-camera mapping, rate-limited to one action per rendered frame.
//!
//! Keys are read as "currently held" booleans once per update tick. A
//! handled-this-frame flag, cleared at the start of each render frame,
//! latches the mapping, so a held key mutates the camera at most once per
//! rendered frame no matter how long it is held or how many update ticks
//! run between frames.

use vstd::prelude::*;

use crate::viewport::Viewport;

verus! {

/// Zoom factor numerator: one zoom-in key press scales by 11/10 (that is,
/// 1.1); one zoom-out press by 10/11.
pub const ZOOM_NUM: u64 = 11;

/// Zoom factor denominator; see [`ZOOM_NUM`].
pub const ZOOM_DEN: u64 = 10;

/// One pan step in milli-tiles (one whole tile, in the camera's fixed-point
/// units): what a directional key moves the window by.
pub const PAN_STEP: i64 = 1000;

/// One pan step in the opposite direction; see [`PAN_STEP`].
pub const PAN_STEP_BACK: i64 = -1000;

/// Which of the recognized keys are held this tick.
#[derive(Clone, Copy, Debug, PartialEq, Eq, Structural)]
pub struct KeyState {
    pub zoom_in: bool,
    pub zoom_out: bool,
    pub pan_up: bool,
    pub pan_down: bool,
    pub pan_left: bool,
    pub pan_right: bool,
}

impl KeyState {
    /// Whether any recognized key is held.
    pub open spec fn any(self) -> bool {
        ||| self.zoom_in
        ||| self.zoom_out
        ||| self.pan_up
        ||| self.pan_down
        ||| self.pan_left
        ||| self.pan_right
    }

    /// No key held.
    pub fn released() -> (k: KeyState)
        ensures
            !k.any(),
    {
        KeyState {
            zoom_in: false,
            zoom_out: false,
            pan_up: false,
            pan_down: false,
            pan_left: false,
            pan_right: false,
        }
    }
}

/// The camera after one tick's held keys, applied in a fixed order: zoom
/// in, zoom out, then the four pans by one whole tile each.
pub open spec fn keys_applied(v: Viewport, k: KeyState) -> Viewport {
    let v1 = if k.zoom_in {
        v.zoomed(ZOOM_NUM, ZOOM_DEN)
    } else {
        v
    };
    let v2 = if k.zoom_out {
        v1.zoomed(ZOOM_DEN, ZOOM_NUM)
    } else {
        v1
    };
    let v3 = if k.pan_up {
        v2.panned(PAN_STEP_BACK, 0)
    } else {
        v2
    };
    let v4 = if k.pan_down {
        v3.panned(PAN_STEP, 0)
    } else {
        v3
    };
    let v5 = if k.pan_left {
        v4.panned(0, PAN_STEP_BACK)
    } else {
        v4
    };
    if k.pan_right {
        v5.panned(0, PAN_STEP)
    } else {
        v5
    }
}

/// Law: one tick of key handling keeps the camera well formed, whatever
/// combination of keys is held.
pub proof fn lemma_keys_applied_wf(v: Viewport, k: KeyState)
    requires
        v.wf(),
    ensures
        keys_applied(v, k).wf(),
{
    let v1 = if k.zoom_in {
        v.zoomed(ZOOM_NUM, ZOOM_DEN)
    } else {
        v
    };
    let v2 = if k.zoom_out {
        v1.zoomed(ZOOM_DEN, ZOOM_NUM)
    } else {
        v1
    };
    let v3 = if k.pan_up {
        v2.panned(PAN_STEP_BACK, 0)
    } else {
        v2
    };
    let v4 = if k.pan_down {
        v3.panned(PAN_STEP, 0)
    } else {
        v3
    };
    let v5 = if k.pan_left {
        v4.panned(0, PAN_STEP_BACK)
    } else {
        v4
    };
    if k.zoom_in {
        crate::viewport::lemma_zoom_keeps_window(v, ZOOM_NUM, ZOOM_DEN);
    }
    if k.zoom_out {
        crate::viewport::lemma_zoom_keeps_window(v1, ZOOM_DEN, ZOOM_NUM);
    }
    if k.pan_up {
        crate::viewport::lemma_pan_keeps_window(v2, PAN_STEP_BACK, 0);
    }
    if k.pan_down {
        crate::viewport::lemma_pan_keeps_window(v3, PAN_STEP, 0);
    }
    if k.pan_left {
        crate::viewport::lemma_pan_keeps_window(v4, 0, PAN_STEP_BACK);
    }
    if k.pan_right {
        crate::viewport::lemma_pan_keeps_window(v5, 0, PAN_STEP);
    }
}

/// The per-frame latch for key handling.
#[derive(Clone, Copy, Debug)]
pub struct InputController {
    /// Whether this frame's keys were already applied to the camera.
    pub handled: bool,
}

impl InputController {
    /// A controller ready to handle the first frame's keys.
    pub fn new() -> (c: InputController)
        ensures
            !c.handled,
    {
        InputController { handled: false }
    }

    /// Re-arms the latch; called at the start of each render frame.
    pub fn begin_frame(&mut self)
        ensures
            !final(self).handled,
    {
        self.handled = false;
    }

    /// Applies this tick's held keys to the camera, at most once per frame:
    /// once the latch is set, further ticks of the same frame change
    /// nothing. The latch is set only when some key was actually held.
    pub fn apply(&mut self, keys: &KeyState, vp: &mut Viewport)
        requires
            old(vp).wf(),
        ensures
            final(vp).wf(),
            old(self).handled ==> *final(vp) == *old(vp) && *final(self) == *old(self),
            !old(self).handled ==> *final(vp) == keys_applied(*old(vp), *keys)
                && final(self).handled == keys.any(),
    {
        if self.handled {
            return ;
        }
        if keys.zoom_in {
            vp.zoom(ZOOM_NUM, ZOOM_DEN);
        }
        if keys.zoom_out {
            vp.zoom(ZOOM_DEN, ZOOM_NUM);
        }
        if keys.pan_up {
            vp.pan(PAN_STEP_BACK, 0);
        }
        if keys.pan_down {
            vp.pan(PAN_STEP, 0);
        }
        if keys.pan_left {
            vp.pan(0, PAN_STEP_BACK);
        }
        if keys.pan_right {
            vp.pan(0, PAN_STEP);
        }
        self.handled = keys.zoom_in || keys.zoom_out || keys.pan_up || keys.pan_down
            || keys.pan_left || keys.pan_right;
    }
}

} // verus!
