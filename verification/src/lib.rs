//! Real-time visualization core for an autonomously exploring grid agent.
//!
//! An external simulation emits periodic telemetry (`Sample`s: agent position,
//! energy, carried-rock count). This library holds the verified core of the
//! client that renders a plausible view of the world from that stream alone:
//!
//! - [`channel`]: a bounded FIFO transport for samples that drops the oldest
//!   entry on overflow (freshness over completeness);
//! - [`mirror`]: a local, speculative copy of the tile grid, mutated when a
//!   sample implies the agent had a side effect on the tile it stands on;
//! - [`motion`]: a hysteresis classifier turning the raw position stream into
//!   a discrete moving/idle state;
//! - [`viewport`]: the camera transform (zoom scale and pan offset), clamped
//!   so the visible window always stays inside the map;
//! - [`input`]: key-to-camera-delta mapping, rate-limited per rendered frame;
//! - [`visualizer`]: the per-frame orchestration of all of the above;
//! - [`hud`]: small pure helpers for the on-screen gauge and sprite table.
//!
//! Fractional quantities (zoom scale, pan offset) are fixed-point integers in
//! thousandths; see [`viewport`] for the exact units.

pub mod channel;
pub mod hud;
pub mod input;
pub mod mirror;
pub mod motion;
pub mod sample;
pub mod tile;
pub mod viewport;
pub mod visualizer;
