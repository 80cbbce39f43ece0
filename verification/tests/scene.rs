use rolling_game::components::{
    ColliderShape, DPad, PixelVec, RigidBody, SpriteAsset,
};
use rolling_game::input::input_map_for_player;
use rolling_game::scene::{player_start, setup, spawn_player};
use rolling_game::world::World;

#[test]
fn setup_spawns_camera_two_players_and_obstacle() {
    let mut w = World::new();
    setup(&mut w);
    assert_eq!(w.entity_count(), 4);

    // Entity 0: the camera, a bare marker.
    assert!(w.camera[0]);
    assert!(!w.player[0]);
    assert!(w.placement[0].is_none());
    assert!(w.collider[0].is_none());

    // Entities 1 and 2: the players.
    for (id, x, sprite) in [(1usize, -150i32, SpriteAsset::BallBlue), (2, 150, SpriteAsset::BallRed)] {
        assert!(w.player[id]);
        assert!(!w.camera[id]);
        let placement = w.placement[id].unwrap();
        assert_eq!(placement.translation, PixelVec { x, y: 0 });
        assert_eq!(placement.z, 1);
        assert_eq!(w.sprite[id], Some(sprite));
        assert_eq!(w.body[id], Some(RigidBody::Dynamic));
        assert_eq!(w.collider[id], Some(ColliderShape::Ball { radius: 32 }));
        let force = w.force[id].unwrap();
        assert_eq!(force.force.x, 0);
        assert_eq!(force.force.y, 0);
        assert_eq!(force.torque, 0);
        let damping = w.damping[id].unwrap();
        assert_eq!(damping.linear, 600);
        assert_eq!(damping.angular, 5000);
        assert_eq!(w.restitution[id], Some(1000));
        let axis = w.axis[id].unwrap();
        assert_eq!(axis.x, 0);
        assert_eq!(axis.y, 0);
    }

    // Entity 3: the triangular obstacle, static (no rigid body).
    assert!(!w.player[3]);
    assert!(!w.camera[3]);
    assert!(w.body[3].is_none());
    assert!(w.input[3].is_none());
    assert_eq!(w.sprite[3], Some(SpriteAsset::BlockCorner));
    let placement = w.placement[3].unwrap();
    assert_eq!(placement.translation, PixelVec { x: 150, y: 200 });
    assert_eq!(
        w.collider[3],
        Some(ColliderShape::Triangle {
            a: PixelVec { x: -30, y: -30 },
            b: PixelVec { x: -30, y: 32 },
            c: PixelVec { x: 32, y: -30 },
        })
    );
    assert_eq!(w.restitution[3], Some(1000));
}

#[test]
fn player_input_bindings_differ_by_index() {
    let m0 = input_map_for_player(0);
    assert_eq!(m0.gamepad, 0);
    assert_eq!(m0.dpad, DPad::Wasd);

    let m1 = input_map_for_player(1);
    assert_eq!(m1.gamepad, 1);
    assert_eq!(m1.dpad, DPad::ArrowKeys);

    let m7 = input_map_for_player(7);
    assert_eq!(m7.gamepad, 7);
    assert_eq!(m7.dpad, DPad::ArrowKeys);
}

#[test]
fn player_start_positions() {
    assert_eq!(player_start(0), PixelVec { x: -150, y: 0 });
    assert_eq!(player_start(1), PixelVec { x: 150, y: 0 });
}

#[test]
fn sprite_asset_paths() {
    assert_eq!(SpriteAsset::BallBlue.path(), "ball_blue_large.png");
    assert_eq!(SpriteAsset::BallRed.path(), "ball_red_large.png");
    assert_eq!(SpriteAsset::BlockCorner.path(), "block_corner.png");
}

#[test]
fn spawn_player_appends_and_keeps_existing_entities() {
    let mut w = World::new();
    setup(&mut w);
    let id = spawn_player(2, PixelVec { x: 10, y: -20 }, SpriteAsset::BallRed, &mut w);
    assert_eq!(id, 4);
    assert_eq!(w.entity_count(), 5);
    assert!(w.player[4]);
    assert_eq!(w.input[4].unwrap().gamepad, 2);
    assert_eq!(w.input[4].unwrap().dpad, DPad::ArrowKeys);
    assert_eq!(w.placement[4].unwrap().translation, PixelVec { x: 10, y: -20 });
    // the original players are untouched
    assert_eq!(w.sprite[1], Some(SpriteAsset::BallBlue));
    assert_eq!(w.sprite[2], Some(SpriteAsset::BallRed));
}
