//! Fixed-point plane and depth-ordered vectors.

use vstd::prelude::*;
use crate::fixp::WORLD_BOUND;

verus! {

/// A point or direction in the plane, fixed-point.
#[derive(Clone, Copy, PartialEq, Eq, Structural, Debug)]
pub struct Vec2Fx {
    pub x: i64,
    pub y: i64,
}

/// A position with a depth-ordering coordinate `z`; the simulation is 2D and
/// no movement or camera update ever alters `z`.
#[derive(Clone, Copy, PartialEq, Eq, Structural, Debug)]
pub struct Vec3Fx {
    pub x: i64,
    pub y: i64,
    pub z: i64,
}

impl Vec2Fx {
    /// Both components lie within the world's extent.
    pub open spec fn in_world(self) -> bool {
        &&& -WORLD_BOUND <= self.x <= WORLD_BOUND
        &&& -WORLD_BOUND <= self.y <= WORLD_BOUND
    }
}

impl Vec3Fx {
    /// The plane components lie within the world's extent; `z` is a free
    /// depth-ordering value.
    pub open spec fn in_world(self) -> bool {
        &&& -WORLD_BOUND <= self.x <= WORLD_BOUND
        &&& -WORLD_BOUND <= self.y <= WORLD_BOUND
    }

    /// The plane part of the position.
    pub open spec fn plane_spec(self) -> Vec2Fx {
        Vec2Fx { x: self.x, y: self.y }
    }

    /// Discards the depth coordinate.
    pub fn plane(&self) -> (r: Vec2Fx)
        ensures
            r == self.plane_spec(),
    {
        Vec2Fx { x: self.x, y: self.y }
    }
}

} // verus!
