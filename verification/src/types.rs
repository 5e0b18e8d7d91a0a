//! The records the controller reads and writes: vectors, key state,
//! orientation and pose.

use vstd::prelude::*;
use crate::fixed::QUARTER_TURN;
use crate::fixed::TURN;

verus! {

/// A point or direction in world space, each coordinate a count of
/// quanta (`SCALE` per world unit).
#[derive(Clone, Copy, Debug, PartialEq, Eq, Structural)]
pub struct Vec3 {
    pub x: i64,
    pub y: i64,
    pub z: i64,
}

impl Vec3 {
    /// The origin, and the direction of no movement.
    pub open spec fn zero_spec() -> Vec3 {
        Vec3 { x: 0, y: 0, z: 0 }
    }

    /// Build the zero vector.
    pub fn zero() -> (v: Vec3)
        ensures
            v == Vec3::zero_spec(),
    {
        Vec3 { x: 0, y: 0, z: 0 }
    }

    /// Squared length, in quanta squared.
    pub open spec fn sq_len(self) -> int {
        self.x * self.x + self.y * self.y + self.z * self.z
    }

    /// Every coordinate lies in `[-m, m]`.
    pub open spec fn bounded(self, m: int) -> bool {
        &&& -m <= self.x <= m
        &&& -m <= self.y <= m
        &&& -m <= self.z <= m
    }
}

/// Held state of the four movement keys for one frame.
#[derive(Clone, Copy, Debug, PartialEq, Eq, Structural)]
pub struct KeyInput {
    pub forward: bool,
    pub back: bool,
    pub left: bool,
    pub right: bool,
}

impl KeyInput {
    /// No movement key held.
    pub open spec fn idle(self) -> bool {
        !self.forward && !self.back && !self.left && !self.right
    }
}

/// An orientation as yaw around the world Y axis and pitch around the
/// local X axis, in angle quanta; roll is always zero, and yaw is kept
/// canonical so that equal orientations are equal records.
#[derive(Clone, Copy, Debug, PartialEq, Eq, Structural)]
pub struct Orientation {
    pub yaw: i64,
    pub pitch: i64,
}

impl Orientation {
    /// Canonical yaw, and a pitch strictly between straight down and level.
    pub open spec fn wf(self) -> bool {
        &&& 0 <= self.yaw < TURN
        &&& -QUARTER_TURN < self.pitch <= 0
    }
}

/// Position and orientation of one entity; the player's pose is written
/// only by locomotion, the camera's only by the orbit controller.
#[derive(Clone, Copy, Debug, PartialEq, Eq, Structural)]
pub struct Pose {
    pub position: Vec3,
    pub orientation: Orientation,
}

} // verus!
