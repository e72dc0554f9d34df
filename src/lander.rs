//! The lander of the trajectory preview, in whole device units.
use vstd::prelude::*;

verus! {

/// A vector of three integers.
#[derive(Debug, Clone, Copy, PartialEq, Eq, Structural)]
pub struct Vec3 {
    pub x: i32,
    pub y: i32,
    pub z: i32,
}

impl Vec3 {
    pub fn new(x: i32, y: i32, z: i32) -> (r: Vec3)
        ensures
            r == (Vec3 { x, y, z }),
    {
        Vec3 { x, y, z }
    }
}

/// A lander: its mass, position and velocity.
#[derive(Debug, Clone, Copy, PartialEq, Eq, Structural)]
pub struct Lander {
    pub mass: i32,
    pub position: Vec3,
    pub velocity: Vec3,
}

impl Lander {
    /// A lander without mass, at rest at the origin.
    pub fn new() -> (r: Lander)
        ensures
            r.mass == 0,
            r.position == (Vec3 { x: 0, y: 0, z: 0 }),
            r.velocity == (Vec3 { x: 0, y: 0, z: 0 }),
    {
        Lander { mass: 0, position: Vec3::new(0, 0, 0), velocity: Vec3::new(0, 0, 0) }
    }
}

} // verus!
