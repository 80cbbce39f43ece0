//! The per-player input-mapping description, and a model of the virtual
//! directional pad that drives the movement action from four keys.

use vstd::prelude::*;
use crate::components::{AxisVector, DPad, InputMapping, AXIS_UNIT};

verus! {

/// The binding a player of the given index gets: the left analog stick of
/// the gamepad with that index, plus the WASD virtual pad for player 0 and
/// the arrow-key virtual pad for every other player.
pub open spec fn spec_input_map(index: usize) -> InputMapping {
    InputMapping {
        gamepad: index,
        dpad: if index == 0 {
            DPad::Wasd
        } else {
            DPad::ArrowKeys
        },
    }
}

/// Build the input mapping for the player of the given index: its movement
/// action listens to the left stick of gamepad `index` and, at the same
/// time, to WASD if the index is 0 and to the arrow keys otherwise.
pub fn input_map_for_player(index: usize) -> (r: InputMapping)
    ensures
        r == spec_input_map(index),
        r.gamepad == index,
        r.dpad == (if index == 0 {
            DPad::Wasd
        } else {
            DPad::ArrowKeys
        }),
{
    InputMapping {
        gamepad: index,
        dpad: if index == 0 {
            DPad::Wasd
        } else {
            DPad::ArrowKeys
        },
    }
}

/// The virtual directional pad's aggregation, as the input layer documents
/// it: each pressed key contributes one full deflection along its
/// direction, opposite keys cancel to a net zero on that axis, and the
/// result is already clamped.
pub fn virtual_dpad_axis(up: bool, down: bool, left: bool, right: bool) -> (r: AxisVector)
    ensures
        r.x == (if right {
            AXIS_UNIT as int
        } else {
            0
        }) - (if left {
            AXIS_UNIT as int
        } else {
            0
        }),
        r.y == (if up {
            AXIS_UNIT as int
        } else {
            0
        }) - (if down {
            AXIS_UNIT as int
        } else {
            0
        }),
        left == right ==> r.x == 0,
        up == down ==> r.y == 0,
        r.clamped(),
{
    let x: i32 = (if right { AXIS_UNIT } else { 0 }) - (if left { AXIS_UNIT } else { 0 });
    let y: i32 = (if up { AXIS_UNIT } else { 0 }) - (if down { AXIS_UNIT } else { 0 });
    AxisVector { x, y }
}

} // verus!
