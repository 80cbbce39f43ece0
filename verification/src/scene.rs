//! Static scene construction: one camera, two player avatars at fixed
//! positions with distinct sprites and input bindings, and one static
//! triangular obstacle. Everything is created once, at startup, from
//! complete entity descriptions.

use vstd::prelude::*;
use crate::components::{
    AxisVector, ColliderShape, Damping, ExternalForce, ForceVector, PixelVec, Placement,
    RigidBody, SpriteAsset,
};
use crate::input::{input_map_for_player, spec_input_map};
use crate::world::{EntityDescriptor, World};

verus! {

/// Radius of each player's circular collider, in pixels.
pub const PLAYER_RADIUS: i32 = 32;

/// Layer every sprite is drawn on.
pub const SPRITE_LAYER: i32 = 1;

/// Linear velocity damping of a player body, in milli-units (0.6).
pub const LINEAR_DAMPING_MILLI: i32 = 600;

/// Angular velocity damping of a player body, in milli-units (5.0).
pub const ANGULAR_DAMPING_MILLI: i32 = 5000;

/// Restitution coefficient of players and obstacle, in milli-units (1.0).
pub const RESTITUTION_MILLI: i32 = 1000;

/// Where the player of the given index starts: player 0 on the left,
/// player 1 on the right, both on the horizontal axis.
pub open spec fn spec_player_start(index: usize) -> PixelVec {
    if index == 0 {
        PixelVec { x: -150i32, y: 0 }
    } else {
        PixelVec { x: 150, y: 0 }
    }
}

/// Where the player of the given index starts.
pub fn player_start(index: usize) -> (r: PixelVec)
    ensures
        r == spec_player_start(index),
{
    if index == 0 {
        PixelVec { x: -150, y: 0 }
    } else {
        PixelVec { x: 150, y: 0 }
    }
}

/// The camera entity: a bare marker, no other components.
pub open spec fn camera_descriptor() -> EntityDescriptor {
    EntityDescriptor {
        player: false,
        camera: true,
        placement: None,
        sprite: None,
        input: None,
        axis: None,
        body: None,
        collider: None,
        force: None,
        damping: None,
        restitution: None,
    }
}

/// Everything a player entity carries at spawn: its sprite at the given
/// position, its input binding, a zero axis sample, a dynamic body with a
/// circular collider, a zero external force, and the fixed damping and
/// restitution coefficients.
pub open spec fn player_descriptor(
    index: usize,
    location: PixelVec,
    sprite: SpriteAsset,
) -> EntityDescriptor {
    EntityDescriptor {
        player: true,
        camera: false,
        placement: Some(Placement { translation: location, z: SPRITE_LAYER }),
        sprite: Some(sprite),
        input: Some(spec_input_map(index)),
        axis: Some(AxisVector { x: 0, y: 0 }),
        body: Some(RigidBody::Dynamic),
        collider: Some(ColliderShape::Ball { radius: PLAYER_RADIUS }),
        force: Some(ExternalForce { force: ForceVector { x: 0, y: 0 }, torque: 0 }),
        damping: Some(Damping { linear: LINEAR_DAMPING_MILLI, angular: ANGULAR_DAMPING_MILLI }),
        restitution: Some(RESTITUTION_MILLI),
    }
}

/// The static triangular obstacle: a sprite with a triangle collider and a
/// restitution coefficient, no rigid body (static geometry), no input.
pub open spec fn obstacle_descriptor() -> EntityDescriptor {
    EntityDescriptor {
        player: false,
        camera: false,
        placement: Some(
            Placement { translation: PixelVec { x: 150, y: 200 }, z: SPRITE_LAYER },
        ),
        sprite: Some(SpriteAsset::BlockCorner),
        input: None,
        axis: None,
        body: None,
        collider: Some(
            ColliderShape::Triangle {
                a: PixelVec { x: -30i32, y: -30i32 },
                b: PixelVec { x: -30i32, y: 32 },
                c: PixelVec { x: 32, y: -30i32 },
            },
        ),
        force: None,
        damping: None,
        restitution: Some(RESTITUTION_MILLI),
    }
}

/// Create one player entity in the world from its index, start position
/// and sprite; the new entity carries exactly `player_descriptor` and every
/// existing entity is untouched.
pub fn spawn_player(
    index: usize,
    location: PixelVec,
    sprite: SpriteAsset,
    world: &mut World,
) -> (id: usize)
    requires
        old(world).wf(),
    ensures
        final(world).wf(),
        id == old(world).len(),
        final(world).len() == old(world).len() + 1,
        final(world).entity(id as int) == player_descriptor(index, location, sprite),
        forall|i: int|
            0 <= i < old(world).len() ==> #[trigger] final(world).entity(i) == old(
                world,
            ).entity(i),
{
    let desc = EntityDescriptor {
        player: true,
        camera: false,
        placement: Some(Placement { translation: location, z: SPRITE_LAYER }),
        sprite: Some(sprite),
        input: Some(input_map_for_player(index)),
        axis: Some(AxisVector::zero()),
        body: Some(RigidBody::Dynamic),
        collider: Some(ColliderShape::Ball { radius: PLAYER_RADIUS }),
        force: Some(ExternalForce::zero()),
        damping: Some(Damping { linear: LINEAR_DAMPING_MILLI, angular: ANGULAR_DAMPING_MILLI }),
        restitution: Some(RESTITUTION_MILLI),
    };
    assert(desc == player_descriptor(index, location, sprite));
    world.spawn(desc)
}

/// What `setup` leaves behind: four new entities — the camera, player 0 on
/// the left with the blue ball sprite, player 1 on the right with the red
/// ball sprite, and the triangular obstacle — and every prior entity
/// exactly as it was.
pub open spec fn scene_spawned(pre: World, post: World) -> bool {
    &&& post.len() == pre.len() + 4
    &&& forall|i: int| 0 <= i < pre.len() ==> #[trigger] post.entity(i) == pre.entity(i)
    &&& post.entity(pre.len() as int) == camera_descriptor()
    &&& post.entity(pre.len() as int + 1) == player_descriptor(
        0,
        spec_player_start(0),
        SpriteAsset::BallBlue,
    )
    &&& post.entity(pre.len() as int + 2) == player_descriptor(
        1,
        spec_player_start(1),
        SpriteAsset::BallRed,
    )
    &&& post.entity(pre.len() as int + 3) == obstacle_descriptor()
}

/// Build the static scene into the world: exactly one camera, the two
/// players with their distinct sprites and bindings, and the triangular
/// obstacle, in that order.
pub fn setup(world: &mut World)
    requires
        old(world).wf(),
    ensures
        final(world).wf(),
        scene_spawned(*old(world), *final(world)),
{
    let camera = EntityDescriptor {
        player: false,
        camera: true,
        placement: None,
        sprite: None,
        input: None,
        axis: None,
        body: None,
        collider: None,
        force: None,
        damping: None,
        restitution: None,
    };
    assert(camera == camera_descriptor());
    let ghost w0 = *world;
    world.spawn(camera);
    let ghost w1 = *world;

    let p0_start = player_start(0);
    let p1_start = player_start(1);
    spawn_player(0, p0_start, SpriteAsset::BallBlue, world);
    let ghost w2 = *world;
    spawn_player(1, p1_start, SpriteAsset::BallRed, world);
    let ghost w3 = *world;

    let obstacle = EntityDescriptor {
        player: false,
        camera: false,
        placement: Some(
            Placement { translation: PixelVec { x: 150, y: 200 }, z: SPRITE_LAYER },
        ),
        sprite: Some(SpriteAsset::BlockCorner),
        input: None,
        axis: None,
        body: None,
        collider: Some(
            ColliderShape::Triangle {
                a: PixelVec { x: -30, y: -30 },
                b: PixelVec { x: -30, y: 32 },
                c: PixelVec { x: 32, y: -30 },
            },
        ),
        force: None,
        damping: None,
        restitution: Some(RESTITUTION_MILLI),
    };
    assert(obstacle == obstacle_descriptor());
    world.spawn(obstacle);
    proof {
        let n0 = w0.len() as int;
        assert forall|i: int| 0 <= i < n0 implies world.entity(i) == w0.entity(i) by {
            assert(w1.entity(i) == w0.entity(i));
            assert(w2.entity(i) == w1.entity(i));
            assert(w3.entity(i) == w2.entity(i));
            assert(world.entity(i) == w3.entity(i));
        }
        assert(w2.entity(n0) == w1.entity(n0));
        assert(w3.entity(n0) == w2.entity(n0));
        assert(world.entity(n0) == w3.entity(n0));
        assert(w3.entity(n0 + 1) == w2.entity(n0 + 1));
        assert(world.entity(n0 + 1) == w3.entity(n0 + 1));
        assert(world.entity(n0 + 2) == w3.entity(n0 + 2));
    }
}

} // verus!
