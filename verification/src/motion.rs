//! Motion/idle classification of the agent from its raw position stream.
//!
//! A state machine with time-based hysteresis: any observed position change
//! makes the agent `Moving` at once; only a position that stays unchanged
//! for at least [`IDLE_THRESHOLD_MS`] milliseconds makes it `Idle`. The
//! threshold is a pure time comparison, not a count of samples, so the
//! classifier is robust to irregular sampling rates.

use vstd::prelude::*;

use crate::sample::Sample;

verus! {

/// How long (milliseconds) the position must stay unchanged before the
/// agent is classified idle.
pub const IDLE_THRESHOLD_MS: u64 = 3000;

/// The discrete visual state of the agent.
#[derive(Clone, Copy, Debug, PartialEq, Eq, Structural)]
pub enum Classification {
    /// Before any sample has been observed.
    Unknown,
    /// The agent changed position recently.
    Moving,
    /// The agent has sat on one tile for at least the threshold.
    Idle,
}

/// The classifier's state: the last position seen, when that position was
/// last entered (unset until a repeat is first observed), and the current
/// classification.
#[derive(Clone, Copy, Debug)]
pub struct MotionClassifier {
    /// Current discrete state.
    pub classification: Classification,
    /// Row of the last observed position.
    pub last_row: usize,
    /// Column of the last observed position.
    pub last_col: usize,
    /// When the current position was first seen again, in milliseconds;
    /// unset until the position repeats.
    pub last_change_ms: Option<u64>,
}

impl MotionClassifier {
    /// The state before any sample: classification unknown, position at the
    /// origin, timestamp unset.
    pub open spec fn initial() -> MotionClassifier {
        MotionClassifier {
            classification: Classification::Unknown,
            last_row: 0,
            last_col: 0,
            last_change_ms: None,
        }
    }

    /// The transition function: the state after observing position
    /// `(row, col)` at time `now_ms`.
    ///
    /// - A position different from the last one re-arms `Moving`
    ///   immediately and restarts the clock.
    /// - An unchanged position with no clock running starts the clock and
    ///   stays `Moving`.
    /// - An unchanged position whose clock has reached the threshold turns
    ///   `Idle`; below the threshold the classification is left as it is.
    pub open spec fn observed(self, row: usize, col: usize, now_ms: u64) -> MotionClassifier {
        if row != self.last_row || col != self.last_col {
            MotionClassifier {
                classification: Classification::Moving,
                last_row: row,
                last_col: col,
                last_change_ms: Some(now_ms),
            }
        } else {
            match self.last_change_ms {
                None => MotionClassifier {
                    classification: Classification::Moving,
                    last_row: self.last_row,
                    last_col: self.last_col,
                    last_change_ms: Some(now_ms),
                },
                Some(since) => {
                    if now_ms >= since + IDLE_THRESHOLD_MS {
                        MotionClassifier {
                            classification: Classification::Idle,
                            last_row: self.last_row,
                            last_col: self.last_col,
                            last_change_ms: self.last_change_ms,
                        }
                    } else {
                        self
                    }
                },
            }
        }
    }

    /// A fresh classifier in the initial state.
    pub fn new() -> (c: MotionClassifier)
        ensures
            c == MotionClassifier::initial(),
    {
        MotionClassifier {
            classification: Classification::Unknown,
            last_row: 0,
            last_col: 0,
            last_change_ms: None,
        }
    }

    /// Feeds one sample observed at `now_ms` into the state machine; the
    /// new state is exactly `observed` applied to the old one.
    pub fn observe(&mut self, s: &Sample, now_ms: u64)
        ensures
            *final(self) == old(self).observed(s.row, s.col, now_ms),
    {
        if s.row != self.last_row || s.col != self.last_col {
            self.classification = Classification::Moving;
            self.last_row = s.row;
            self.last_col = s.col;
            self.last_change_ms = Some(now_ms);
        } else {
            match self.last_change_ms {
                None => {
                    self.classification = Classification::Moving;
                    self.last_change_ms = Some(now_ms);
                },
                Some(since) => {
                    if now_ms >= since && now_ms - since >= IDLE_THRESHOLD_MS {
                        self.classification = Classification::Idle;
                    }
                },
            }
        }
    }

    /// Whether the agent should be drawn with the idle sprite.
    pub fn is_idle(&self) -> (b: bool)
        ensures
            b == (self.classification == Classification::Idle),
    {
        self.classification == Classification::Idle
    }
}

} // verus!
