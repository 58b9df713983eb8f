//! The camera: a zoom scale and a pan offset per axis, clamped so that the
//! visible window always lies inside the map.
//!
//! Fractional quantities are fixed-point integers in thousandths
//! ([`FIXED_ONE`] units per whole):
//!
//! - `scale_x` / `scale_y`: milli-pixels per tile (how many pixels one tile
//!   spans, times 1000);
//! - `pan_x` / `pan_y`: milli-tiles (the map coordinate at the window's
//!   top-left corner, times 1000);
//! - screen sizes are whole pixels, map sizes whole tiles.
//!
//! The window along an axis covers `[pan, pan + screen/scale]` in tiles. The
//! invariant `window inside the map` is stated multiplicatively, so that no
//! rounding is involved: `pan * scale + screen * FIXED_ONE * FIXED_ONE <=
//! map * FIXED_ONE * scale` (both sides in micro-pixel units).
//!
//! Clamping order matters: a zoom resolves the scale first, then re-clamps
//! the pan, because the admissible pan range depends on the scale.

use vstd::arithmetic::div_mod::{
    lemma_div_is_ordered, lemma_div_multiples_vanish, lemma_div_pos_is_pos,
    lemma_fundamental_div_mod, lemma_mod_bound,
};
use vstd::prelude::*;

verus! {

/// One fixed-point unit: fractional values are stored in thousandths.
pub const FIXED_ONE: u64 = 1000;

/// Cap on the zoom scale (milli-pixels per tile), so that every product in
/// the window arithmetic fits in 64 bits. A scale this large would paint one
/// tile across a million pixels, far beyond any real window.
pub const MAX_SCALE: u64 = 1_000_000_000;

/// Cap on map dimensions (tiles) and screen dimensions (pixels), so that
/// every product in the window arithmetic fits in 64 bits.
pub const MAX_DIM: u64 = 100_000;

/// The camera state: fixed screen and map sizes, and the mutable zoom scale
/// and pan offset for each axis.
pub struct Viewport {
    /// Screen width in pixels; fixed after construction.
    pub screen_w: u64,
    /// Screen height in pixels; fixed after construction.
    pub screen_h: u64,
    /// Map width in tiles (columns); fixed after construction.
    pub map_w: u64,
    /// Map height in tiles (rows); fixed after construction.
    pub map_h: u64,
    /// Zoom scale along x, in milli-pixels per tile.
    pub scale_x: u64,
    /// Zoom scale along y, in milli-pixels per tile.
    pub scale_y: u64,
    /// Pan offset along x, in milli-tiles.
    pub pan_x: u64,
    /// Pan offset along y, in milli-tiles.
    pub pan_y: u64,
}

/// The smallest admissible scale for one axis: the fully-zoomed-out bound
/// `screen / map` in milli-pixels per tile, rounded up so that the window
/// never exceeds the map.
pub open spec fn min_scale_spec(screen: u64, map: u64) -> int {
    (screen * FIXED_ONE + map - 1) / (map as int)
}

/// The largest admissible pan for one axis at a given scale:
/// `map - screen/scale` in milli-tiles, rounded down.
pub open spec fn pan_limit_spec(screen: u64, map: u64, scale: int) -> int {
    (map * FIXED_ONE * scale - screen * FIXED_ONE * FIXED_ONE) / scale
}

/// Well-formedness of one axis: sizes in range, the scale between the
/// fully-zoomed-out bound and the cap, and the window inside the map.
pub open spec fn axis_wf(screen: u64, map: u64, scale: u64, pan: u64) -> bool {
    &&& 1 <= screen <= MAX_DIM
    &&& 1 <= map <= MAX_DIM
    &&& 1 <= scale <= MAX_SCALE
    &&& scale * map >= screen * FIXED_ONE
    &&& pan * scale + screen * FIXED_ONE * FIXED_ONE <= map * FIXED_ONE * scale
}

/// A requested scale, clamped into the admissible range: snapped up to the
/// fully-zoomed-out bound, and capped at [`MAX_SCALE`].
pub open spec fn clamp_scale_spec(raw: int, screen: u64, map: u64) -> int {
    let capped = if raw > MAX_SCALE {
        MAX_SCALE as int
    } else {
        raw
    };
    if capped < min_scale_spec(screen, map) {
        min_scale_spec(screen, map)
    } else {
        capped
    }
}

/// A pan offset shifted by a (possibly negative) delta and clamped into
/// `[0, limit]`: a delta that would leave the range is absorbed at the
/// boundary, not rejected.
pub open spec fn clamp_shift_spec(cur: u64, delta: i64, limit: int) -> int {
    if cur + delta <= 0 {
        0
    } else if cur + delta >= limit {
        limit
    } else {
        cur + delta
    }
}

impl Viewport {
    /// The invariant that holds after construction and after every `zoom`
    /// and `pan`: both axes are well formed, so the visible window is a
    /// subset of the map.
    pub open spec fn wf(self) -> bool {
        &&& axis_wf(self.screen_w, self.map_w, self.scale_x, self.pan_x)
        &&& axis_wf(self.screen_h, self.map_h, self.scale_y, self.pan_y)
    }

    /// The width of the visible window in milli-tiles: `screen / scale`
    /// tiles, rounded down.
    pub open spec fn window_w_spec(self) -> int {
        screen_micro_px(self.screen_w) / (self.scale_x as int)
    }

    /// The height of the visible window in milli-tiles.
    pub open spec fn window_h_spec(self) -> int {
        screen_micro_px(self.screen_h) / (self.scale_y as int)
    }

    /// The visible window along x, `[pan_x, pan_x + window_w]`, never leaves
    /// `[0, map_w]` (all in milli-tiles); likewise along y. This is the clamping
    /// invariant in its direct, divided form; `wf` carries the same fact
    /// multiplied out.
    pub open spec fn window_within_map(self) -> bool {
        &&& self.pan_x + self.window_w_spec() <= self.map_w * FIXED_ONE
        &&& self.pan_y + self.window_h_spec() <= self.map_h * FIXED_ONE
    }

    /// The camera after `zoom(num/den)`: both scales multiplied by the
    /// factor and clamped, then the pan re-clamped to the new admissible
    /// range.
    pub open spec fn zoomed(self, num: u64, den: u64) -> Viewport {
        let sx = clamp_scale_spec(self.scale_x * num / (den as int), self.screen_w, self.map_w);
        let sy = clamp_scale_spec(self.scale_y * num / (den as int), self.screen_h, self.map_h);
        let lx = pan_limit_spec(self.screen_w, self.map_w, sx);
        let ly = pan_limit_spec(self.screen_h, self.map_h, sy);
        Viewport {
            screen_w: self.screen_w,
            screen_h: self.screen_h,
            map_w: self.map_w,
            map_h: self.map_h,
            scale_x: sx as u64,
            scale_y: sy as u64,
            pan_x: if self.pan_x > lx {
                lx as u64
            } else {
                self.pan_x
            },
            pan_y: if self.pan_y > ly {
                ly as u64
            } else {
                self.pan_y
            },
        }
    }

    /// The camera after `pan(d_row, d_col)` (deltas in milli-tiles): each
    /// offset shifted and clamped to its admissible range.
    pub open spec fn panned(self, d_row: i64, d_col: i64) -> Viewport {
        let lx = pan_limit_spec(self.screen_w, self.map_w, self.scale_x as int);
        let ly = pan_limit_spec(self.screen_h, self.map_h, self.scale_y as int);
        Viewport {
            screen_w: self.screen_w,
            screen_h: self.screen_h,
            map_w: self.map_w,
            map_h: self.map_h,
            scale_x: self.scale_x,
            scale_y: self.scale_y,
            pan_x: clamp_shift_spec(self.pan_x, d_col, lx) as u64,
            pan_y: clamp_shift_spec(self.pan_y, d_row, ly) as u64,
        }
    }

    /// Screen x of a tile column, in micro-pixels: `(col - pan_x) * scale_x`.
    pub open spec fn screen_x_spec(self, col: u64) -> int {
        (col * FIXED_ONE - self.pan_x) * self.scale_x
    }

    /// Screen y of a tile row, in micro-pixels: `(row - pan_y) * scale_y`.
    pub open spec fn screen_y_spec(self, row: u64) -> int {
        (row * FIXED_ONE - self.pan_y) * self.scale_y
    }

    /// The tile column containing a screen x (micro-pixels): the inverse
    /// scale/pan transform `x / scale_x + pan_x`, in whole tiles, rounded
    /// down.
    pub open spec fn tile_col_spec(self, x: int) -> int {
        (x + self.pan_x * self.scale_x) / (self.scale_x * FIXED_ONE)
    }

    /// The tile row containing a screen y (micro-pixels).
    pub open spec fn tile_row_spec(self, y: int) -> int {
        (y + self.pan_y * self.scale_y) / (self.scale_y * FIXED_ONE)
    }
}

/// A screen dimension (pixels) in micro-pixel units, as the window
/// arithmetic uses it.
pub open spec fn screen_micro_px(screen: u64) -> int {
    screen * FIXED_ONE * FIXED_ONE
}

/// The rounded-up minimum scale does bound the window: at that scale the
/// whole map fits, and the value itself stays within the scale cap.
proof fn lemma_min_scale(screen: u64, map: u64)
    requires
        1 <= screen,
        1 <= map,
    ensures
        min_scale_spec(screen, map) * map >= screen * FIXED_ONE,
        1 <= min_scale_spec(screen, map) <= screen * FIXED_ONE,
{
    let a = screen * FIXED_ONE;
    let m = map as int;
    let q = min_scale_spec(screen, map);
    lemma_fundamental_div_mod(a + m - 1, m);
    let r = (a + m - 1) % m;
    assert(a + m - 1 == m * q + r);
    assert(q * m >= a) by (nonlinear_arith)
        requires
            a + m - 1 == m * q + r,
            0 <= r < m,
    ;
    assert(q >= 1) by (nonlinear_arith)
        requires
            q * m >= a,
            a >= 1000,
            m >= 1,
    ;
    assert(q <= a) by (nonlinear_arith)
        requires
            a + m - 1 == m * q + r,
            0 <= r,
            m >= 1,
            a >= 1,
    ;
}

/// The rounded-down pan limit is the largest pan that keeps the window
/// inside the map at the given scale.
proof fn lemma_pan_limit(screen: u64, map: u64, scale: u64)
    requires
        1 <= screen <= MAX_DIM,
        1 <= map <= MAX_DIM,
        1 <= scale <= MAX_SCALE,
        scale * map >= screen * FIXED_ONE,
    ensures
        0 <= pan_limit_spec(screen, map, scale as int) <= map * FIXED_ONE,
        pan_limit_spec(screen, map, scale as int) * scale + screen * FIXED_ONE * FIXED_ONE
            <= map * FIXED_ONE * scale,
        forall|p: int|
            0 <= p && #[trigger] (p * scale) + screen * FIXED_ONE * FIXED_ONE <= map * FIXED_ONE
                * scale ==> p <= pan_limit_spec(screen, map, scale as int),
{
    let s = scale as int;
    let n = map * FIXED_ONE * scale - screen * FIXED_ONE * FIXED_ONE;
    let l = pan_limit_spec(screen, map, scale as int);
    assert(n >= 0) by (nonlinear_arith)
        requires
            scale * map >= screen * FIXED_ONE,
            scale >= 1,
            map >= 1,
            screen >= 1,
            n == map * FIXED_ONE * scale - screen * FIXED_ONE * FIXED_ONE,
    ;
    lemma_div_pos_is_pos(n, s);
    lemma_fundamental_div_mod(n, s);
    assert(l * s <= n) by (nonlinear_arith)
        requires
            n == s * l + n % s,
            0 <= n % s,
    ;
    assert(l <= map * FIXED_ONE) by {
        lemma_div_is_ordered(n, map * FIXED_ONE * s, s);
        assert(map * FIXED_ONE * s == s * (map * FIXED_ONE)) by (nonlinear_arith);
        lemma_div_multiples_vanish(map * FIXED_ONE, s);
    }
    assert forall|p: int|
        0 <= p && #[trigger] (p * scale) + screen * FIXED_ONE * FIXED_ONE <= map * FIXED_ONE
            * scale implies p <= l by {
        assert(p * s <= n);
        assert(p * s == s * p) by (nonlinear_arith);
        lemma_div_multiples_vanish(p, s);
        lemma_div_is_ordered(p * s, n, s);
    }
}

/// A well-formed pan never exceeds the map size.
proof fn lemma_pan_within(screen: u64, map: u64, scale: u64, pan: u64)
    requires
        axis_wf(screen, map, scale, pan),
    ensures
        pan <= map * FIXED_ONE,
        pan <= pan_limit_spec(screen, map, scale as int),
{
    lemma_pan_limit(screen, map, scale);
    assert(pan * scale + screen * FIXED_ONE * FIXED_ONE <= map * FIXED_ONE * scale);
    assert(pan <= pan_limit_spec(screen, map, scale as int));
}

/// A scale clamped into the admissible range makes the axis well formed
/// again once the pan is re-clamped; this is the scale half.
proof fn lemma_clamp_scale(raw: int, screen: u64, map: u64)
    requires
        1 <= screen <= MAX_DIM,
        1 <= map <= MAX_DIM,
        raw >= 0,
    ensures
        1 <= clamp_scale_spec(raw, screen, map) <= MAX_SCALE,
        clamp_scale_spec(raw, screen, map) * map >= screen * FIXED_ONE,
{
    let ms = min_scale_spec(screen, map);
    let c = clamp_scale_spec(raw, screen, map);
    lemma_min_scale(screen, map);
    assert(ms <= screen * FIXED_ONE);
    assert(screen * FIXED_ONE <= MAX_SCALE) by (nonlinear_arith)
        requires
            screen <= MAX_DIM,
    ;
    assert(c >= ms);
    assert(c * map >= ms * map) by (nonlinear_arith)
        requires
            c >= ms,
            map >= 1,
    ;
}

impl Viewport {
    /// A camera for the given screen and map sizes, fully zoomed out
    /// (both scales at the fully-zoomed-out bound) and panned to the
    /// map's top-left corner.
    pub fn new(screen_w: u64, screen_h: u64, map_w: u64, map_h: u64) -> (v: Viewport)
        requires
            1 <= screen_w <= MAX_DIM,
            1 <= screen_h <= MAX_DIM,
            1 <= map_w <= MAX_DIM,
            1 <= map_h <= MAX_DIM,
        ensures
            v.wf(),
            v.screen_w == screen_w,
            v.screen_h == screen_h,
            v.map_w == map_w,
            v.map_h == map_h,
            v.scale_x == min_scale_spec(screen_w, map_w),
            v.scale_y == min_scale_spec(screen_h, map_h),
            v.pan_x == 0,
            v.pan_y == 0,
    {
        proof {
            lemma_min_scale(screen_w, map_w);
            lemma_min_scale(screen_h, map_h);
            assert(screen_w * FIXED_ONE <= MAX_SCALE) by (nonlinear_arith)
                requires
                    screen_w <= MAX_DIM,
            ;
            assert(screen_h * FIXED_ONE <= MAX_SCALE) by (nonlinear_arith)
                requires
                    screen_h <= MAX_DIM,
            ;
            assert(min_scale_spec(screen_w, map_w) * map_w >= screen_w * FIXED_ONE);
            assert(min_scale_spec(screen_w, map_w) * map_w * FIXED_ONE >= screen_w * FIXED_ONE
                * FIXED_ONE) by (nonlinear_arith)
                requires
                    min_scale_spec(screen_w, map_w) * map_w >= screen_w * FIXED_ONE,
            ;
            assert(min_scale_spec(screen_h, map_h) * map_h * FIXED_ONE >= screen_h * FIXED_ONE
                * FIXED_ONE) by (nonlinear_arith)
                requires
                    min_scale_spec(screen_h, map_h) * map_h >= screen_h * FIXED_ONE,
            ;
            assert(map_w * FIXED_ONE * min_scale_spec(screen_w, map_w) == min_scale_spec(
                screen_w,
                map_w,
            ) * map_w * FIXED_ONE) by (nonlinear_arith);
            assert(map_h * FIXED_ONE * min_scale_spec(screen_h, map_h) == min_scale_spec(
                screen_h,
                map_h,
            ) * map_h * FIXED_ONE) by (nonlinear_arith);
        }
        let scale_x = min_scale(screen_w, map_w);
        let scale_y = min_scale(screen_h, map_h);
        Viewport { screen_w, screen_h, map_w, map_h, scale_x, scale_y, pan_x: 0, pan_y: 0 }
    }
}

/// The fully-zoomed-out scale bound for one axis, rounded up.
fn min_scale(screen: u64, map: u64) -> (r: u64)
    requires
        1 <= screen <= MAX_DIM,
        1 <= map <= MAX_DIM,
    ensures
        r == min_scale_spec(screen, map),
{
    (screen * FIXED_ONE + (map - 1)) / map
}

/// The largest admissible pan for one axis at the given scale, rounded down.
fn pan_limit(screen: u64, map: u64, scale: u64) -> (r: u64)
    requires
        1 <= screen <= MAX_DIM,
        1 <= map <= MAX_DIM,
        1 <= scale <= MAX_SCALE,
        scale * map >= screen * FIXED_ONE,
    ensures
        r == pan_limit_spec(screen, map, scale as int),
        r <= map * FIXED_ONE,
{
    proof {
        lemma_pan_limit(screen, map, scale);
        assert(map * FIXED_ONE * scale >= screen * FIXED_ONE * FIXED_ONE);
        assert(map * FIXED_ONE * scale <= 0x16345785D8A0000) by (nonlinear_arith)
            requires
                map <= MAX_DIM,
                scale <= MAX_SCALE,
        ;
    }
    (map * FIXED_ONE * scale - screen * FIXED_ONE * FIXED_ONE) / scale
}

/// Restores one axis of the invariant once the pan is known to sit at or
/// below the admissible limit for its scale.
proof fn lemma_axis_after_clamp(screen: u64, map: u64, scale: u64, pan: u64)
    requires
        1 <= screen <= MAX_DIM,
        1 <= map <= MAX_DIM,
        1 <= scale <= MAX_SCALE,
        scale * map >= screen * FIXED_ONE,
        pan <= pan_limit_spec(screen, map, scale as int),
    ensures
        axis_wf(screen, map, scale, pan),
{
    lemma_pan_limit(screen, map, scale);
    let l = pan_limit_spec(screen, map, scale as int);
    assert(pan * scale <= l * scale) by (nonlinear_arith)
        requires
            pan <= l,
            scale >= 0,
    ;
}

/// A negative numerator divided by a positive divisor yields a negative
/// quotient (Euclidean division).
proof fn lemma_neg_div(n: int, d: int)
    requires
        n < 0,
        d >= 1,
    ensures
        n / d < 0,
{
    lemma_fundamental_div_mod(n, d);
    lemma_mod_bound(n, d);
    assert(n / d < 0) by (nonlinear_arith)
        requires
            n == d * (n / d) + n % d,
            0 <= n % d < d,
            n < 0,
            d >= 1,
    ;
}

/// Law: zooming keeps the viewport well formed — the scale is clamped into
/// its admissible range and the pan re-clamped, so the visible window stays
/// inside the map for every factor.
pub proof fn lemma_zoom_keeps_window(v: Viewport, num: u64, den: u64)
    requires
        v.wf(),
        1 <= num,
        1 <= den,
    ensures
        v.zoomed(num, den).wf(),
{
    let z = v.zoomed(num, den);
    let raw_x = v.scale_x * num / (den as int);
    let raw_y = v.scale_y * num / (den as int);
    lemma_div_pos_is_pos(v.scale_x * num, den as int);
    lemma_div_pos_is_pos(v.scale_y * num, den as int);
    lemma_clamp_scale(raw_x, v.screen_w, v.map_w);
    lemma_clamp_scale(raw_y, v.screen_h, v.map_h);
    lemma_pan_limit(v.screen_w, v.map_w, z.scale_x);
    lemma_pan_limit(v.screen_h, v.map_h, z.scale_y);
    lemma_axis_after_clamp(v.screen_w, v.map_w, z.scale_x, z.pan_x);
    lemma_axis_after_clamp(v.screen_h, v.map_h, z.scale_y, z.pan_y);
}

/// Law: panning keeps the viewport well formed — a delta that would push
/// the window past the map's edge is absorbed at the boundary, so the
/// visible window stays inside the map for every delta.
pub proof fn lemma_pan_keeps_window(v: Viewport, d_row: i64, d_col: i64)
    requires
        v.wf(),
    ensures
        v.panned(d_row, d_col).wf(),
{
    let p = v.panned(d_row, d_col);
    lemma_pan_limit(v.screen_w, v.map_w, v.scale_x);
    lemma_pan_limit(v.screen_h, v.map_h, v.scale_y);
    lemma_axis_after_clamp(v.screen_w, v.map_w, v.scale_x, p.pan_x);
    lemma_axis_after_clamp(v.screen_h, v.map_h, v.scale_y, p.pan_y);
}

/// Law: in a well-formed viewport the visible window `[pan, pan + window]`
/// is a subset of `[0, map]` along both axes, stated in the direct, divided
/// form. Together with `lemma_zoom_keeps_window` and
/// `lemma_pan_keeps_window`, every sequence of zoom and pan calls starting
/// from a well-formed viewport keeps the window inside the map.
pub proof fn lemma_window_within_map(v: Viewport)
    requires
        v.wf(),
    ensures
        v.window_within_map(),
{
    let sx = v.scale_x as int;
    let sy = v.scale_y as int;
    assert(screen_micro_px(v.screen_w) <= (v.map_w * FIXED_ONE - v.pan_x) * sx)
        by (nonlinear_arith)
        requires
            v.pan_x * sx + v.screen_w * FIXED_ONE * FIXED_ONE <= v.map_w * FIXED_ONE * sx,
    ;
    lemma_div_is_ordered(
        screen_micro_px(v.screen_w),
        (v.map_w * FIXED_ONE - v.pan_x) * sx,
        sx,
    );
    assert((v.map_w * FIXED_ONE - v.pan_x) * sx == sx * (v.map_w * FIXED_ONE - v.pan_x))
        by (nonlinear_arith);
    lemma_div_multiples_vanish(v.map_w * FIXED_ONE - v.pan_x, sx);
    assert(screen_micro_px(v.screen_h) <= (v.map_h * FIXED_ONE - v.pan_y) * sy)
        by (nonlinear_arith)
        requires
            v.pan_y * sy + v.screen_h * FIXED_ONE * FIXED_ONE <= v.map_h * FIXED_ONE * sy,
    ;
    lemma_div_is_ordered(
        screen_micro_px(v.screen_h),
        (v.map_h * FIXED_ONE - v.pan_y) * sy,
        sy,
    );
    assert((v.map_h * FIXED_ONE - v.pan_y) * sy == sy * (v.map_h * FIXED_ONE - v.pan_y))
        by (nonlinear_arith);
    lemma_div_multiples_vanish(v.map_h * FIXED_ONE - v.pan_y, sy);
}

/// Law: mapping a tile to its screen position and back through the inverse
/// scale/pan transform recovers exactly the original tile coordinates — the
/// fixed-point transform round-trips without loss.
pub proof fn lemma_tile_round_trip(v: Viewport, row: u64, col: u64)
    requires
        v.wf(),
        row < v.map_h,
        col < v.map_w,
    ensures
        v.tile_col_spec(v.screen_x_spec(col)) == col,
        v.tile_row_spec(v.screen_y_spec(row)) == row,
{
    let sx = v.scale_x as int;
    let sy = v.scale_y as int;
    assert(v.screen_x_spec(col) + v.pan_x * sx == (sx * FIXED_ONE) * col) by (nonlinear_arith)
        requires
            v.screen_x_spec(col) == (col * FIXED_ONE - v.pan_x) * sx,
    ;
    lemma_div_multiples_vanish(col as int, sx * FIXED_ONE);
    assert(v.screen_y_spec(row) + v.pan_y * sy == (sy * FIXED_ONE) * row) by (nonlinear_arith)
        requires
            v.screen_y_spec(row) == (row * FIXED_ONE - v.pan_y) * sy,
    ;
    lemma_div_multiples_vanish(row as int, sy * FIXED_ONE);
}

/// A pan offset shifted by a delta and clamped into `[0, limit]`, without
/// overflow for any delta.
fn clamp_shift(cur: u64, delta: i64, limit: u64) -> (r: u64)
    requires
        cur <= limit,
        limit <= 0x2000_0000_0000_0000,
    ensures
        r == clamp_shift_spec(cur, delta, limit as int),
{
    if delta >= 0 {
        let up = delta as u64;
        if up >= limit - cur {
            limit
        } else {
            cur + up
        }
    } else {
        // magnitude of `delta`, computed without overflowing at i64::MIN
        let down = (-(delta + 1)) as u64 + 1;
        if down >= cur {
            0
        } else {
            cur - down
        }
    }
}

impl Viewport {
    /// Multiplies both scale axes by `num / den`, then clamps: a zoom-out
    /// past the fully-zoomed-out bound snaps the scale exactly to that
    /// bound rather than refusing the operation, and the pan is re-clamped
    /// afterwards so the window stays inside the map.
    pub fn zoom(&mut self, num: u64, den: u64)
        requires
            old(self).wf(),
            1 <= num <= 1_000_000,
            1 <= den,
        ensures
            final(self).wf(),
            *final(self) == old(self).zoomed(num, den),
    {
        proof {
            assert(self.scale_x * num <= 0x38D7EA4C68000) by (nonlinear_arith)
                requires
                    self.scale_x <= MAX_SCALE,
                    num <= 1_000_000,
            ;
            assert(self.scale_y * num <= 0x38D7EA4C68000) by (nonlinear_arith)
                requires
                    self.scale_y <= MAX_SCALE,
                    num <= 1_000_000,
            ;
        }
        let raw_x = self.scale_x * num / den;
        let raw_y = self.scale_y * num / den;
        let ms_x = min_scale(self.screen_w, self.map_w);
        let ms_y = min_scale(self.screen_h, self.map_h);
        let capped_x = if raw_x > MAX_SCALE {
            MAX_SCALE
        } else {
            raw_x
        };
        let capped_y = if raw_y > MAX_SCALE {
            MAX_SCALE
        } else {
            raw_y
        };
        self.scale_x = if capped_x < ms_x {
            ms_x
        } else {
            capped_x
        };
        self.scale_y = if capped_y < ms_y {
            ms_y
        } else {
            capped_y
        };
        proof {
            lemma_div_pos_is_pos(old(self).scale_x * num, den as int);
            lemma_div_pos_is_pos(old(self).scale_y * num, den as int);
            lemma_clamp_scale(old(self).scale_x * num / (den as int), self.screen_w, self.map_w);
            lemma_clamp_scale(old(self).scale_y * num / (den as int), self.screen_h, self.map_h);
        }
        let lx = pan_limit(self.screen_w, self.map_w, self.scale_x);
        if self.pan_x > lx {
            self.pan_x = lx;
        }
        let ly = pan_limit(self.screen_h, self.map_h, self.scale_y);
        if self.pan_y > ly {
            self.pan_y = ly;
        }
        proof {
            lemma_zoom_keeps_window(*old(self), num, den);
        }
    }

    /// Adds the deltas (in milli-tiles) to the pan offsets, then clamps each
    /// offset to `[0, map - screen/scale]`: a delta that would move the
    /// window outside the map is absorbed at the boundary, not rejected.
    pub fn pan(&mut self, d_row: i64, d_col: i64)
        requires
            old(self).wf(),
        ensures
            final(self).wf(),
            *final(self) == old(self).panned(d_row, d_col),
    {
        proof {
            lemma_pan_within(self.screen_w, self.map_w, self.scale_x, self.pan_x);
            lemma_pan_within(self.screen_h, self.map_h, self.scale_y, self.pan_y);
        }
        let lx = pan_limit(self.screen_w, self.map_w, self.scale_x);
        self.pan_x = clamp_shift(self.pan_x, d_col, lx);
        let ly = pan_limit(self.screen_h, self.map_h, self.scale_y);
        self.pan_y = clamp_shift(self.pan_y, d_row, ly);
        proof {
            lemma_pan_keeps_window(*old(self), d_row, d_col);
        }
    }

    /// Screen position of a tile's top-left corner in micro-pixels:
    /// `x = (col - pan_x) * scale_x`, `y = (row - pan_y) * scale_y`.
    /// Pure; tiles left of or above the window come out negative.
    pub fn tile_to_screen(&self, row: u64, col: u64) -> (p: (i64, i64))
        requires
            self.wf(),
            row < self.map_h,
            col < self.map_w,
        ensures
            p.0 == self.screen_x_spec(col),
            p.1 == self.screen_y_spec(row),
    {
        proof {
            lemma_pan_within(self.screen_w, self.map_w, self.scale_x, self.pan_x);
            lemma_pan_within(self.screen_h, self.map_h, self.scale_y, self.pan_y);
        }
        let dx = (col * FIXED_ONE) as i64 - (self.pan_x as i64);
        let dy = (row * FIXED_ONE) as i64 - (self.pan_y as i64);
        proof {
            assert(-0x16345785D8A0000 <= dx * self.scale_x <= 0x16345785D8A0000)
                by (nonlinear_arith)
                requires
                    -100_000_000 <= dx <= 100_000_000,
                    1 <= self.scale_x <= MAX_SCALE,
            ;
            assert(-0x16345785D8A0000 <= dy * self.scale_y <= 0x16345785D8A0000)
                by (nonlinear_arith)
                requires
                    -100_000_000 <= dy <= 100_000_000,
                    1 <= self.scale_y <= MAX_SCALE,
            ;
        }
        (dx * (self.scale_x as i64), dy * (self.scale_y as i64))
    }

    /// The tile containing a screen point (micro-pixels), through the
    /// inverse scale/pan transform; `None` when the point falls outside the
    /// map.
    pub fn screen_to_tile(&self, x: i64, y: i64) -> (r: Option<(u64, u64)>)
        requires
            self.wf(),
            -0x1000_0000_0000_0000 <= x <= 0x1000_0000_0000_0000,
            -0x1000_0000_0000_0000 <= y <= 0x1000_0000_0000_0000,
        ensures
            ({
                let tc = self.tile_col_spec(x as int);
                let tr = self.tile_row_spec(y as int);
                if 0 <= tr < self.map_h && 0 <= tc < self.map_w {
                    r == Some((tr as u64, tc as u64))
                } else {
                    r is None
                }
            }),
    {
        proof {
            lemma_pan_within(self.screen_w, self.map_w, self.scale_x, self.pan_x);
            lemma_pan_within(self.screen_h, self.map_h, self.scale_y, self.pan_y);
            assert(self.pan_x * self.scale_x <= 0x16345785D8A0000) by (nonlinear_arith)
                requires
                    self.pan_x <= 100_000_000,
                    self.scale_x <= MAX_SCALE,
            ;
            assert(self.pan_y * self.scale_y <= 0x16345785D8A0000) by (nonlinear_arith)
                requires
                    self.pan_y <= 100_000_000,
                    self.scale_y <= MAX_SCALE,
            ;
        }
        let num_x = x + (self.pan_x * self.scale_x) as i64;
        let num_y = y + (self.pan_y * self.scale_y) as i64;
        if num_x < 0 || num_y < 0 {
            proof {
                if num_x < 0 {
                    lemma_neg_div(num_x as int, self.scale_x * FIXED_ONE);
                } else {
                    lemma_neg_div(num_y as int, self.scale_y * FIXED_ONE);
                }
            }
            return None;
        }
        let tc = (num_x as u64) / (self.scale_x * FIXED_ONE);
        let tr = (num_y as u64) / (self.scale_y * FIXED_ONE);
        if tr < self.map_h && tc < self.map_w {
            Some((tr, tc))
        } else {
            None
        }
    }
}

} // verus!
