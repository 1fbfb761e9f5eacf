//! Positions and velocities in three dimensions.

use crate::binary64::Binary64;
use vstd::prelude::*;

verus! {

/// 3D position coordinates for unit localization.
#[derive(Clone, Copy, Debug, PartialEq, Eq, Structural)]
pub struct Position {
    pub x: Binary64,
    pub y: Binary64,
    pub z: Binary64,
}

impl Position {
    /// The position whose three coordinates are positive zero.
    pub open spec fn spec_origin() -> Position {
        Position { x: Binary64 { bits: 0 }, y: Binary64 { bits: 0 }, z: Binary64 { bits: 0 } }
    }

    /// The position with the given coordinates.
    pub fn new(x: Binary64, y: Binary64, z: Binary64) -> (r: Position)
        ensures
            r == (Position { x, y, z }),
    {
        Position { x, y, z }
    }

    /// The origin of the coordinate system.
    pub fn origin() -> (r: Position)
        ensures
            r == Position::spec_origin(),
    {
        Position::new(Binary64::from_bits(0), Binary64::from_bits(0), Binary64::from_bits(0))
    }
}

impl Default for Position {
    fn default() -> (r: Position)
        ensures
            r == Position::spec_origin(),
    {
        Position::origin()
    }
}

/// 3D velocity vector.
#[derive(Clone, Copy, Debug, PartialEq, Eq, Structural)]
pub struct Velocity {
    pub vx: Binary64,
    pub vy: Binary64,
    pub vz: Binary64,
}

impl Velocity {
    /// The velocity whose three components are positive zero.
    pub open spec fn spec_zero() -> Velocity {
        Velocity { vx: Binary64 { bits: 0 }, vy: Binary64 { bits: 0 }, vz: Binary64 { bits: 0 } }
    }

    /// The velocity with the given components.
    pub fn new(vx: Binary64, vy: Binary64, vz: Binary64) -> (r: Velocity)
        ensures
            r == (Velocity { vx, vy, vz }),
    {
        Velocity { vx, vy, vz }
    }

    /// The velocity of a unit at rest.
    pub fn zero() -> (r: Velocity)
        ensures
            r == Velocity::spec_zero(),
    {
        Velocity::new(Binary64::from_bits(0), Binary64::from_bits(0), Binary64::from_bits(0))
    }
}

impl Default for Velocity {
    fn default() -> (r: Velocity)
        ensures
            r == Velocity::spec_zero(),
    {
        Velocity::zero()
    }
}

} // verus!
