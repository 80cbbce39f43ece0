//! The component kinds that entities of the scene carry, and the fixed-point
//! units they are measured in.

use vstd::prelude::*;

verus! {

/// One full deflection of an input axis, in milli-units: an axis component
/// of 1000 stands for 1.0, the largest value the input layer reports.
pub const AXIS_UNIT: i32 = 1000;

/// The constant by which the clamped input axis is scaled each frame before
/// it is multiplied by the frame's delta-time.
pub const MOVE_FORCE: i64 = 1500;

/// A sampled 2D input axis in milli-units.
///
/// The input layer clamps each component independently to
/// `[-AXIS_UNIT, AXIS_UNIT]`; `clamped` states exactly that.
#[derive(Clone, Copy, PartialEq, Eq, Structural, Debug)]
pub struct AxisVector {
    pub x: i32,
    pub y: i32,
}

impl AxisVector {
    /// Each component lies within one full deflection in either direction.
    pub open spec fn clamped(self) -> bool {
        &&& -AXIS_UNIT <= self.x <= AXIS_UNIT
        &&& -AXIS_UNIT <= self.y <= AXIS_UNIT
    }

    /// Both components are exactly zero: no input on either axis.
    pub open spec fn is_zero(self) -> bool {
        self.x == 0 && self.y == 0
    }

    /// The axis sample meaning "no input at all".
    pub fn zero() -> (r: AxisVector)
        ensures
            r.is_zero(),
            r.clamped(),
    {
        AxisVector { x: 0, y: 0 }
    }
}

/// A 2D force in nano-units: 1_000_000_000 stands for one engine force unit,
/// so a milli-unit axis times `MOVE_FORCE` times a microsecond delta-time is
/// already a nano-unit force, exactly.
#[derive(Clone, Copy, PartialEq, Eq, Structural, Debug)]
pub struct ForceVector {
    pub x: i64,
    pub y: i64,
}

impl ForceVector {
    /// Both components are exactly zero.
    pub open spec fn is_zero(self) -> bool {
        self.x == 0 && self.y == 0
    }

    /// The zero force.
    pub fn zero() -> (r: ForceVector)
        ensures
            r.is_zero(),
    {
        ForceVector { x: 0, y: 0 }
    }
}

/// The external force the physics step applies to an entity: a force vector
/// plus a scalar torque (nano-units). The movement system overwrites the
/// force every frame and never touches the torque.
#[derive(Clone, Copy, PartialEq, Eq, Structural, Debug)]
pub struct ExternalForce {
    pub force: ForceVector,
    pub torque: i64,
}

impl ExternalForce {
    /// A zero force and zero torque, as entities start out.
    pub fn zero() -> (r: ExternalForce)
        ensures
            r.force.is_zero(),
            r.torque == 0,
    {
        ExternalForce { force: ForceVector { x: 0, y: 0 }, torque: 0 }
    }
}

/// Velocity damping coefficients, in milli-units (600 stands for 0.6).
#[derive(Clone, Copy, PartialEq, Eq, Structural, Debug)]
pub struct Damping {
    pub linear: i32,
    pub angular: i32,
}

/// The kind of rigid body the physics engine simulates for an entity.
/// The scene only ever spawns dynamic bodies; colliders without a body
/// are static obstacles.
#[derive(Clone, Copy, PartialEq, Eq, Structural, Debug)]
pub enum RigidBody {
    Dynamic,
}

/// A 2D point or offset in whole pixels of world space.
#[derive(Clone, Copy, PartialEq, Eq, Structural, Debug)]
pub struct PixelVec {
    pub x: i32,
    pub y: i32,
}

/// Where an entity sits in the world: a translation in pixels and a layer
/// index for draw order.
#[derive(Clone, Copy, PartialEq, Eq, Structural, Debug)]
pub struct Placement {
    pub translation: PixelVec,
    pub z: i32,
}

/// The collision shape an entity offers to the physics engine, in pixels.
#[derive(Clone, Copy, PartialEq, Eq, Structural, Debug)]
pub enum ColliderShape {
    Ball { radius: i32 },
    Triangle { a: PixelVec, b: PixelVec, c: PixelVec },
}

/// The sprite images the scene draws, each loaded from a fixed asset path.
#[derive(Clone, Copy, PartialEq, Eq, Structural, Debug)]
pub enum SpriteAsset {
    BallBlue,
    BallRed,
    BlockCorner,
}

impl SpriteAsset {
    /// The asset path the sprite is loaded from.
    pub open spec fn spec_path(self) -> Seq<char> {
        match self {
            SpriteAsset::BallBlue => "ball_blue_large.png"@,
            SpriteAsset::BallRed => "ball_red_large.png"@,
            SpriteAsset::BlockCorner => "block_corner.png"@,
        }
    }

    /// The asset path the sprite is loaded from.
    pub fn path(self) -> (r: &'static str)
        ensures
            r@ == self.spec_path(),
    {
        match self {
            SpriteAsset::BallBlue => "ball_blue_large.png",
            SpriteAsset::BallRed => "ball_red_large.png",
            SpriteAsset::BlockCorner => "block_corner.png",
        }
    }
}

/// Which virtual directional pad a player's movement action listens to,
/// besides the left analog stick that every player has bound.
#[derive(Clone, Copy, PartialEq, Eq, Structural, Debug)]
pub enum DPad {
    Wasd,
    ArrowKeys,
}

/// A player's input binding: the left analog stick of the gamepad with the
/// given index, and one virtual directional pad, both driving the single
/// movement action at once.
#[derive(Clone, Copy, PartialEq, Eq, Structural, Debug)]
pub struct InputMapping {
    pub gamepad: usize,
    pub dpad: DPad,
}

} // verus!
