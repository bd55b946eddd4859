use teleop_twist_keyboard_rust::velocity::{a_vel, l_vel, vel_check, STEP_LIMIT, TICKS_PER_UNIT};

#[test]
fn vel_check_steps_up_one_tick() {
    assert_eq!(vel_check(0, false), 1);
    assert_eq!(vel_check(-20, false), -19);
    assert_eq!(vel_check(18, false), 19);
}

#[test]
fn vel_check_steps_down_one_tick() {
    assert_eq!(vel_check(0, true), -1);
    assert_eq!(vel_check(20, true), 19);
    assert_eq!(vel_check(-18, true), -19);
}

#[test]
fn vel_check_holds_the_ends() {
    assert_eq!(vel_check(STEP_LIMIT, false), TICKS_PER_UNIT);
    assert_eq!(vel_check(20, false), 20);
    assert_eq!(vel_check(-STEP_LIMIT, true), -TICKS_PER_UNIT);
    assert_eq!(vel_check(-20, true), -20);
}

#[test]
fn vel_check_outside_the_range() {
    assert_eq!(vel_check(25, false), 20);
    assert_eq!(vel_check(-25, true), -20);
    assert_eq!(vel_check(-25, false), -24);
    assert_eq!(vel_check(25, true), 24);
}

#[test]
fn vel_check_round_trip() {
    for c in -20i64..20 {
        assert_eq!(vel_check(vel_check(c, false), true), c);
    }
    for c in -19i64..=20 {
        assert_eq!(vel_check(vel_check(c, true), false), c);
    }
    assert_eq!(vel_check(vel_check(20, false), true), 19);
}

#[test]
fn l_vel_arrows() {
    assert_eq!(l_vel('A', 5), 6);
    assert_eq!(l_vel('B', 5), 4);
    assert_eq!(l_vel('A', 20), 20);
    assert_eq!(l_vel('B', -20), -20);
    assert_eq!(l_vel('C', 5), 0);
    assert_eq!(l_vel('x', 5), 0);
}

#[test]
fn a_vel_arrows() {
    assert_eq!(a_vel('C', 5), 4);
    assert_eq!(a_vel('D', 5), 6);
    assert_eq!(a_vel('D', 20), 20);
    assert_eq!(a_vel('C', -20), -20);
    assert_eq!(a_vel('A', 5), 0);
    assert_eq!(a_vel('j', 5), 0);
}
