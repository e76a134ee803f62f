//! Simulation configuration.
//!
//! A handful of behavioural choices — diagonal movement speed, the fire
//! trigger, projectile despawning, a zoom ceiling, and the arrival test of
//! scripted movement — are deliberately explicit configuration fields
//! rather than silently hard-coded choices.  [`Config::standard`] picks raw
//! diagonal sums, an edge trigger, no despawning and an exact arrival test.

use vstd::prelude::*;
use crate::fixp::{WORLD_BOUND, ZOOM_CAP, ZOOM_MIN};

verus! {

/// Largest admissible per-tick zoom step.
pub const ZOOM_STEP_MAX: i64 = 100_000;

/// How a diagonal key chord translates into a movement direction.
#[derive(Clone, Copy, PartialEq, Eq, Structural, Debug)]
pub enum DiagonalMode {
    /// Sum the unit vectors of the pressed keys as they are; a diagonal
    /// chord then moves faster than a single key.
    RawSum,
    /// Normalise the summed vector, so diagonal movement keeps unit speed.
    Normalized,
}

/// When holding the fire button emits spawn events.
#[derive(Clone, Copy, PartialEq, Eq, Structural, Debug)]
pub enum FireMode {
    /// One event on the tick the button goes down.
    EdgeTriggered,
    /// One event on every tick the button is held.
    Continuous,
}

/// All configurable choices of the simulation core.
#[derive(Clone, Copy, Debug)]
pub struct Config {
    /// Diagonal movement handling.
    pub diagonal: DiagonalMode,
    /// Fire trigger handling.
    pub fire: FireMode,
    /// Zoom change per tick while a zoom key is held, fixed-point.
    pub zoom_step: i64,
    /// Ceiling for the camera zoom scale, fixed-point.
    pub zoom_max: i64,
    /// Projectiles whose Chebyshev distance from the origin exceeds this
    /// radius are removed after integration; `None` keeps every projectile
    /// alive forever.
    pub despawn_radius: Option<i64>,
    /// Scripted movement counts an axis as arrived when the projected
    /// position is within this distance of the target; zero demands exact
    /// equality.
    pub arrive_tolerance: i64,
}

impl Config {
    /// The configured values stay within machine-safe ranges.
    pub open spec fn wf(self) -> bool {
        &&& 0 <= self.zoom_step <= ZOOM_STEP_MAX
        &&& ZOOM_MIN <= self.zoom_max <= ZOOM_CAP
        &&& (match self.despawn_radius {
            Some(r) => 0 <= r <= WORLD_BOUND,
            None => true,
        })
        &&& 0 <= self.arrive_tolerance <= WORLD_BOUND
    }

    /// Raw diagonal sums, edge-triggered fire, three-hundredths of a unit of
    /// zoom per tick, an unbounded-in-practice zoom ceiling, no projectile
    /// despawning and an exact arrival test.
    pub fn standard() -> (c: Config)
        ensures
            c.wf(),
            c.diagonal == DiagonalMode::RawSum,
            c.fire == FireMode::EdgeTriggered,
            c.zoom_step == 30,
            c.zoom_max == ZOOM_CAP,
            c.despawn_radius == Option::<i64>::None,
            c.arrive_tolerance == 0,
    {
        Config {
            diagonal: DiagonalMode::RawSum,
            fire: FireMode::EdgeTriggered,
            zoom_step: 30,
            zoom_max: ZOOM_CAP,
            despawn_radius: None,
            arrive_tolerance: 0,
        }
    }
}

} // verus!
