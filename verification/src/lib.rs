//! A verified model of a small two-player rolling-ball scene.
//!
//! The library holds the authored logic of the game: an explicit entity
//! registry (one component table per component kind, entities addressed by
//! index), static scene construction (a camera, two players, one triangular
//! obstacle), the per-player input-mapping description, and the per-frame
//! movement system that overwrites each player's external force with its
//! clamped input axis scaled by a constant and by the frame's delta-time.
//!
//! All quantities are exact integers in fixed-point units so that every
//! computation can be stated and proved precisely:
//! - input axis components in milli-units (1000 stands for full deflection),
//! - frame delta-time in microseconds,
//! - forces in nano-units (1_000_000_000 stands for one engine force unit),
//!   so that `axis_milli * MOVE_FORCE * dt_micros` is already the nano-unit
//!   force, with no rounding,
//! - world geometry in whole pixels,
//! - damping and restitution coefficients in milli-units.
//!
//! The engine itself (rendering, physics stepping, input devices) is outside
//! this library; a host reads devices and the frame clock, hands the sampled
//! values in, and writes the computed forces back out.

pub mod components;
pub mod input;
pub mod movement;
pub mod scene;
pub mod world;
