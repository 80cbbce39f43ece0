use rolling_game::input::virtual_dpad_axis;

#[test]
fn opposite_keys_on_an_axis_cancel_to_zero() {
    // Both "left" and "right" held at once: the virtual d-pad reports a
    // net zero on that axis.
    let a = virtual_dpad_axis(false, false, true, true);
    assert_eq!(a.x, 0);
    assert_eq!(a.y, 0);

    // Both vertical keys held, one horizontal key held.
    let b = virtual_dpad_axis(true, true, true, false);
    assert_eq!(b.x, -1000);
    assert_eq!(b.y, 0);

    // All four keys held.
    let c = virtual_dpad_axis(true, true, true, true);
    assert_eq!(c.x, 0);
    assert_eq!(c.y, 0);
}

#[test]
fn single_keys_give_full_deflection() {
    assert_eq!(virtual_dpad_axis(false, false, false, true).x, 1000);
    assert_eq!(virtual_dpad_axis(false, false, true, false).x, -1000);
    assert_eq!(virtual_dpad_axis(true, false, false, false).y, 1000);
    assert_eq!(virtual_dpad_axis(false, true, false, false).y, -1000);
    let idle = virtual_dpad_axis(false, false, false, false);
    assert_eq!(idle.x, 0);
    assert_eq!(idle.y, 0);
}

#[test]
fn diagonal_keys_give_full_deflection_on_both_axes() {
    let a = virtual_dpad_axis(true, false, false, true);
    assert_eq!(a.x, 1000);
    assert_eq!(a.y, 1000);
}
