//! The per-frame movement system: for every player entity, the external
//! force is overwritten with the entity's clamped input axis scaled by
//! `MOVE_FORCE` and by the frame's delta-time. The force is a pure
//! overwrite — nothing accumulates across frames — and the torque is never
//! touched.

use vstd::prelude::*;
use crate::components::{AxisVector, ExternalForce, ForceVector, AXIS_UNIT, MOVE_FORCE};
use crate::world::World;

verus! {

/// One force component in nano-units: the milli-unit axis component times
/// `MOVE_FORCE` times the microsecond delta-time.
pub open spec fn force_component(axis_milli: int, dt_micros: int) -> int {
    axis_milli * MOVE_FORCE * dt_micros
}

/// A clamped axis component scaled by any frame delta-time stays well
/// inside the `i64` range.
proof fn lemma_force_fits(a: int, dt: int)
    requires
        -AXIS_UNIT <= a <= AXIS_UNIT,
        0 <= dt <= u32::MAX,
    ensures
        i64::MIN <= force_component(a, dt) <= i64::MAX,
{
    assert(i64::MIN <= a * MOVE_FORCE * dt <= i64::MAX) by (nonlinear_arith)
        requires
            -1000 <= a <= 1000,
            0 <= dt <= 0xffff_ffff,
    ;
}

/// The force a given clamped axis sample produces over a frame of the
/// given length, computed exactly in nano-units.
pub fn force_for_axis(axis: AxisVector, dt_micros: u32) -> (r: ForceVector)
    requires
        axis.clamped(),
    ensures
        r.x == force_component(axis.x as int, dt_micros as int),
        r.y == force_component(axis.y as int, dt_micros as int),
{
    proof {
        lemma_force_fits(axis.x as int, dt_micros as int);
        lemma_force_fits(axis.y as int, dt_micros as int);
    }
    ForceVector {
        x: (axis.x as i64) * MOVE_FORCE * (dt_micros as i64),
        y: (axis.y as i64) * MOVE_FORCE * (dt_micros as i64),
    }
}

/// How one entity's external force cell steps over a frame: a player's
/// force is overwritten with its scaled axis while its torque stays as it
/// was; any other entity's cell is untouched.
pub open spec fn stepped_force(
    was_player: bool,
    pre_axis: Option<AxisVector>,
    pre_force: Option<ExternalForce>,
    post_force: Option<ExternalForce>,
    dt: int,
) -> bool {
    if was_player {
        &&& post_force is Some
        &&& post_force->Some_0.force.x == force_component(pre_axis->Some_0.x as int, dt)
        &&& post_force->Some_0.force.y == force_component(pre_axis->Some_0.y as int, dt)
        &&& post_force->Some_0.torque == pre_force->Some_0.torque
    } else {
        post_force == pre_force
    }
}

/// Everything one run of the movement system does to the world: every
/// table but the forces is left as it was, and every force cell steps as
/// `stepped_force` says.
pub open spec fn movement_rel(pre: World, post: World, dt: int) -> bool {
    &&& post.player@ == pre.player@
    &&& post.camera@ == pre.camera@
    &&& post.placement@ == pre.placement@
    &&& post.sprite@ == pre.sprite@
    &&& post.input@ == pre.input@
    &&& post.axis@ == pre.axis@
    &&& post.body@ == pre.body@
    &&& post.collider@ == pre.collider@
    &&& post.damping@ == pre.damping@
    &&& post.restitution@ == pre.restitution@
    &&& post.force@.len() == pre.force@.len()
    &&& forall|i: int|
        0 <= i < pre.force@.len() ==> stepped_force(
            pre.player@[i],
            pre.axis@[i],
            pre.force@[i],
            #[trigger] post.force@[i],
            dt,
        )
}

/// The movement system, run once per frame: for every player entity, read
/// its current clamped axis and overwrite its external force with
/// `axis * MOVE_FORCE * dt`, replacing whatever was there; leave every
/// other entity, and every torque, alone.
pub fn movement(world: &mut World, dt_micros: u32)
    requires
        old(world).wf(),
    ensures
        final(world).wf(),
        movement_rel(*old(world), *final(world), dt_micros as int),
{
    let n: usize = world.entity_count();
    let mut i: usize = 0;
    while i < n
        invariant
            old(world).wf(),
            i <= n,
            n == old(world).len(),
            world.player@ == old(world).player@,
            world.camera@ == old(world).camera@,
            world.placement@ == old(world).placement@,
            world.sprite@ == old(world).sprite@,
            world.input@ == old(world).input@,
            world.axis@ == old(world).axis@,
            world.body@ == old(world).body@,
            world.collider@ == old(world).collider@,
            world.damping@ == old(world).damping@,
            world.restitution@ == old(world).restitution@,
            world.force@.len() == n,
            world.wf(),
            forall|j: int|
                0 <= j < i ==> stepped_force(
                    old(world).player@[j],
                    old(world).axis@[j],
                    old(world).force@[j],
                    #[trigger] world.force@[j],
                    dt_micros as int,
                ),
            forall|j: int| i <= j < n ==> #[trigger] world.force@[j] == old(world).force@[j],
        decreases n - i,
    {
        if world.player[i] {
            if let Some(axis) = world.axis[i] {
                let scaled = force_for_axis(axis, dt_micros);
                let torque: i64 = match &world.force[i] {
                    Some(f) => f.torque,
                    None => 0,
                };
                world.force.set(i, Some(ExternalForce { force: scaled, torque }));
            }
        }
        i = i + 1;
    }
}

/// For every frame and every player entity, the resulting external force
/// is exactly the player's clamped axis scaled by `MOVE_FORCE` and by the
/// frame's delta-time, and its torque is zero; the axis read is present
/// and clamped.
pub proof fn lemma_player_force(pre: World, post: World, dt: int, i: int)
    requires
        pre.wf(),
        movement_rel(pre, post, dt),
        0 <= i < pre.len(),
        pre.player@[i],
    ensures
        pre.axis@[i] is Some,
        pre.axis@[i]->Some_0.clamped(),
        post.force@[i] is Some,
        post.force@[i]->Some_0.force.x == force_component(pre.axis@[i]->Some_0.x as int, dt),
        post.force@[i]->Some_0.force.y == force_component(pre.axis@[i]->Some_0.y as int, dt),
        post.force@[i]->Some_0.torque == 0,
{
}

/// Running the movement system a second time within the same frame — the
/// axis samples and the delta-time unchanged — leaves every external force
/// exactly as the first run left it: the write is a pure overwrite, with
/// no accumulation.
pub proof fn lemma_movement_idempotent(w0: World, w1: World, w2: World, dt: int)
    requires
        movement_rel(w0, w1, dt),
        movement_rel(w1, w2, dt),
    ensures
        w2.force@ == w1.force@,
{
    assert forall|i: int| 0 <= i < w1.force@.len() implies w2.force@[i] == w1.force@[i] by {
        assert(stepped_force(w0.player@[i], w0.axis@[i], w0.force@[i], w1.force@[i], dt));
        assert(stepped_force(w1.player@[i], w1.axis@[i], w1.force@[i], w2.force@[i], dt));
    }
    assert(w2.force@ =~= w1.force@);
}

/// A player whose axis reads exactly (0, 0) ends the frame with a force of
/// exactly (0, 0), whatever the delta-time.
pub proof fn lemma_zero_axis_zero_force(pre: World, post: World, dt: int, i: int)
    requires
        pre.wf(),
        movement_rel(pre, post, dt),
        0 <= i < pre.len(),
        pre.player@[i],
        pre.axis@[i]->Some_0.is_zero(),
    ensures
        post.force@[i] is Some,
        post.force@[i]->Some_0.force.is_zero(),
{
    lemma_player_force(pre, post, dt, i);
    assert(force_component(0, dt) == 0) by (nonlinear_arith);
}

/// A frame whose delta-time is zero — the clock paused, or the very first
/// frame — ends with every player's force exactly (0, 0), whatever the
/// axes read.
pub proof fn lemma_zero_dt_zero_force(pre: World, post: World, i: int)
    requires
        pre.wf(),
        movement_rel(pre, post, 0),
        0 <= i < pre.len(),
        pre.player@[i],
    ensures
        post.force@[i] is Some,
        post.force@[i]->Some_0.force.is_zero(),
{
    lemma_player_force(pre, post, 0, i);
    assert(force_component(pre.axis@[i]->Some_0.x as int, 0) == 0) by (nonlinear_arith);
    assert(force_component(pre.axis@[i]->Some_0.y as int, 0) == 0) by (nonlinear_arith);
}

} // verus!
