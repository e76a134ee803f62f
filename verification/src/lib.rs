//! Verified core of a tick-driven 2D top-down action simulation.
//!
//! The crate covers the four concerns that carry the simulation's logic:
//! translating raw input into world-space movement and aim, the projectile
//! subsystem, the camera pan/zoom/lock state machine, and one-shot procedural
//! map generation.  Engine concerns (windowing, rendering, asset loading) stay
//! outside; a host program polls the input device, hands plain values to
//! [`world::World::tick`] once per frame, and reads the resulting state back
//! for drawing.
//!
//! All world quantities are fixed-point integers: one world unit is
//! [`fixp::SCALE`] subdivisions, so contracts state every coordinate update
//! exactly, down to the rounding of each division.

pub mod aim;
pub mod camera;
pub mod commands;
pub mod config;
pub mod fixp;
pub mod geom;
pub mod input;
pub mod mapgen;
pub mod num;
pub mod projectile;
pub mod store;
pub mod world;
