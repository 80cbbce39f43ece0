use rolling_game::components::AxisVector;
use rolling_game::movement::{force_for_axis, movement};
use rolling_game::scene::setup;
use rolling_game::world::World;

/// Force values are stored in nano-units: 1_000_000_000 is one engine unit.
const NANO: f64 = 1_000_000_000.0;

fn scene() -> World {
    let mut w = World::new();
    setup(&mut w);
    w
}

#[test]
fn right_key_for_16ms_gives_24_units_forward() {
    // Player 0 holds the "right" key: a full positive deflection on x.
    let mut w = scene();
    w.set_axis(1, AxisVector { x: 1000, y: 0 });
    movement(&mut w, 16_000);
    let f = w.force[1].unwrap();
    assert_eq!(f.force.x, 24_000_000_000);
    assert_eq!(f.force.y, 0);
    assert_eq!(f.torque, 0);
    assert_eq!(f.force.x as f64 / NANO, 24.0);
}

#[test]
fn stick_fully_up_for_20ms_gives_30_units_up() {
    // Player 1's left stick pushed fully up for a 0.02 s frame.
    let mut w = scene();
    w.set_axis(2, AxisVector { x: 0, y: 1000 });
    movement(&mut w, 20_000);
    let f = w.force[2].unwrap();
    assert_eq!(f.force.x, 0);
    assert_eq!(f.force.y, 30_000_000_000);
    assert_eq!(f.torque, 0);
    assert_eq!(f.force.y as f64 / NANO, 30.0);
}

#[test]
fn zero_axis_gives_zero_force_whatever_the_delta_time() {
    let mut w = scene();
    w.set_axis(1, AxisVector { x: 0, y: 0 });
    movement(&mut w, 987_654);
    let f = w.force[1].unwrap();
    assert_eq!(f.force.x, 0);
    assert_eq!(f.force.y, 0);
}

#[test]
fn zero_delta_time_gives_zero_force_whatever_the_axis() {
    let mut w = scene();
    w.set_axis(1, AxisVector { x: 700, y: -300 });
    w.set_axis(2, AxisVector { x: -1000, y: 1000 });
    movement(&mut w, 0);
    for id in [1usize, 2] {
        let f = w.force[id].unwrap();
        assert_eq!(f.force.x, 0);
        assert_eq!(f.force.y, 0);
    }
}

#[test]
fn second_run_in_the_same_frame_changes_nothing() {
    // The force is a pure overwrite: nothing accumulates.
    let mut w = scene();
    w.set_axis(1, AxisVector { x: 250, y: -750 });
    movement(&mut w, 16_000);
    let first = w.force[1].unwrap();
    movement(&mut w, 16_000);
    let second = w.force[1].unwrap();
    assert_eq!(first, second);
    assert_eq!(second.force.x, 250 * 1500 * 16_000);
}

#[test]
fn movement_overwrites_rather_than_accumulates_across_frames() {
    let mut w = scene();
    w.set_axis(1, AxisVector { x: 1000, y: 0 });
    movement(&mut w, 16_000);
    movement(&mut w, 16_000);
    movement(&mut w, 16_000);
    assert_eq!(w.force[1].unwrap().force.x, 24_000_000_000);
}

#[test]
fn movement_touches_only_player_entities() {
    let mut w = scene();
    w.set_axis(1, AxisVector { x: 1000, y: 1000 });
    movement(&mut w, 16_000);
    assert!(w.force[0].is_none()); // camera
    assert!(w.force[3].is_none()); // obstacle
    assert!(!w.player[0] && !w.player[3]);
}

#[test]
fn force_for_axis_scales_each_component_exactly() {
    let f = force_for_axis(AxisVector { x: -1000, y: 333 }, 16_000);
    assert_eq!(f.x, -1000i64 * 1500 * 16_000);
    assert_eq!(f.y, 333i64 * 1500 * 16_000);
}

#[test]
fn force_for_axis_at_extreme_inputs_does_not_overflow() {
    let f = force_for_axis(AxisVector { x: 1000, y: -1000 }, u32::MAX);
    assert_eq!(f.x, 1000i64 * 1500 * (u32::MAX as i64));
    assert_eq!(f.y, -1000i64 * 1500 * (u32::MAX as i64));
}
