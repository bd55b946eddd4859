use teleop_twist_keyboard_rust::bindings::Motion;
use teleop_twist_keyboard_rust::gain::Gain;
use teleop_twist_keyboard_rust::teleop::{Outcome, Teleop, TwistCommand, QUIT_KEY};

fn classify(key: char) -> Outcome {
    Teleop::new().step(key)
}

fn motion(x: i64, y: i64, z: i64, th: i64) -> Motion {
    Motion { x, y, z, th }
}

fn gain(up: u64, down: u64) -> Gain {
    Gain { up, down }
}

fn press_all(s: &mut Teleop, keys: &str) -> Vec<Outcome> {
    keys.chars().map(|k| s.step(k)).collect()
}

#[test]
fn starts_standing_still() {
    let s = Teleop::new();
    assert_eq!(s.motion, motion(0, 0, 0, 0));
    assert_eq!(s.speed, gain(0, 0));
    assert_eq!(s.turn, gain(0, 0));
}

#[test]
fn outcome_of_every_kind() {
    for k in ['A', 'B', 'C', 'D'] {
        assert_eq!(classify(k), Outcome::Arrow);
    }
    for k in ['i', 'o', 'j', 'l', 'u', ',', '.', 'm', 'O', 'I', 'J', 'L', 'U', '<', '>', 'M', 't', 'b', 'k', 'K'] {
        assert_eq!(classify(k), Outcome::Move);
    }
    for k in ['q', 'z', 'w', 'x', 'e', 'c'] {
        assert_eq!(classify(k), Outcome::Scale);
    }
    assert_eq!(classify('s'), Outcome::Stop);
    assert_eq!(classify('S'), Outcome::Stop);
    assert_eq!(classify(QUIT_KEY), Outcome::Quit);
    assert_eq!(classify('\x03'), Outcome::Quit);
    for k in ['a', 'd', 'E', '\x1b', '[', ' ', 'Z', '\n'] {
        assert_eq!(classify(k), Outcome::Invalid);
    }
}

#[test]
fn movement_key_sets_motion() {
    let mut s = Teleop::new();
    assert_eq!(s.step('o'), Outcome::Move);
    assert_eq!(s.motion, motion(20, 0, 0, -20));
    assert_eq!(s.step('M'), Outcome::Move);
    assert_eq!(s.motion, motion(-20, 20, 0, 0));
    assert_eq!(s.step('t'), Outcome::Move);
    assert_eq!(s.motion, motion(0, 0, 20, 0));
    assert_eq!(s.speed, gain(0, 0));
}

#[test]
fn up_arrow_ramps_linearly_and_holds_at_top() {
    let mut s = Teleop::new();
    s.step('j');
    assert_eq!(s.step('A'), Outcome::Arrow);
    assert_eq!(s.motion, motion(1, 0, 0, 0));
    for _ in 0..30 {
        s.step('A');
    }
    assert_eq!(s.motion, motion(20, 0, 0, 0));
    s.step('B');
    assert_eq!(s.motion, motion(19, 0, 0, 0));
}

#[test]
fn down_arrow_from_forward_motion() {
    let mut s = Teleop::new();
    s.step('u');
    assert_eq!(s.motion, motion(20, 0, 0, 20));
    s.step('B');
    assert_eq!(s.motion, motion(19, 0, 0, 0));
    for _ in 0..50 {
        s.step('B');
    }
    assert_eq!(s.motion, motion(-20, 0, 0, 0));
}

#[test]
fn side_arrows_turn() {
    let mut s = Teleop::new();
    s.step('i');
    assert_eq!(s.step('C'), Outcome::Arrow);
    assert_eq!(s.motion, motion(0, 0, 0, -1));
    s.step('D');
    s.step('D');
    assert_eq!(s.motion, motion(0, 0, 0, 1));
    s.step('A');
    assert_eq!(s.motion, motion(1, 0, 0, 0));
}

#[test]
fn arrow_round_trip() {
    let mut s = Teleop::new();
    press_all(&mut s, "AAAAA");
    let before = s.motion;
    press_all(&mut s, "AB");
    assert_eq!(s.motion, before);
    press_all(&mut s, "DDDCCC");
    assert_eq!(s.motion, motion(0, 0, 0, 0));
}

#[test]
fn escape_sequence_of_an_arrow_key() {
    // An arrow key arrives as ESC '[' 'A': the first two bytes are not commands.
    let mut s = Teleop::new();
    s.step('i');
    let outs = press_all(&mut s, "\x1b[A");
    assert_eq!(outs, vec![Outcome::Invalid, Outcome::Invalid, Outcome::Arrow]);
    assert_eq!(s.motion, motion(20, 0, 0, 0));
}

#[test]
fn speed_keys_scale_and_keep_motion() {
    let mut s = Teleop::new();
    s.step('O');
    assert_eq!(s.step('q'), Outcome::Scale);
    assert_eq!(s.speed, gain(1, 0));
    assert_eq!(s.turn, gain(1, 0));
    assert_eq!(s.motion, motion(20, -20, 0, 0));
    press_all(&mut s, "zwxec");
    assert_eq!(s.speed, gain(2, 2));
    assert_eq!(s.turn, gain(2, 2));
    press_all(&mut s, "ww");
    assert_eq!(s.speed, gain(4, 2));
    assert_eq!(s.turn, gain(2, 2));
    assert_eq!(s.motion, motion(20, -20, 0, 0));
}

#[test]
fn speed_keys_commute() {
    let mut a = Teleop::new();
    let mut b = Teleop::new();
    press_all(&mut a, "qxe");
    press_all(&mut b, "exq");
    assert_eq!(a, b);
}

#[test]
fn stop_keys() {
    for key in ['s', 'S', 'k', 'K'] {
        let mut s = Teleop::new();
        press_all(&mut s, "uqq");
        let speed = s.speed;
        s.step(key);
        assert_eq!(s.motion, motion(0, 0, 0, 0));
        assert_eq!(s.speed, speed);
        let t = s.twist();
        assert_eq!((t.linear_x, t.linear_y, t.linear_z), (0, 0, 0));
        assert_eq!((t.angular_x, t.angular_y, t.angular_z), (0, 0, 0));
        let again = s;
        s.step(key);
        assert_eq!(s, again);
    }
    let mut s = Teleop::new();
    s.step('i');
    assert_eq!(s.step('s'), Outcome::Stop);
    assert_eq!(s.step('k'), Outcome::Move);
}

#[test]
fn quit_and_invalid_keep_state() {
    let mut s = Teleop::new();
    press_all(&mut s, "U q A");
    let before = s;
    assert_eq!(s.step('\x03'), Outcome::Quit);
    assert_eq!(s, before);
    assert_eq!(s.step('?'), Outcome::Invalid);
    assert_eq!(s, before);
}

#[test]
fn twist_of_a_state() {
    let mut s = Teleop::new();
    press_all(&mut s, "Ocq");
    let t = s.twist();
    assert_eq!(
        t,
        TwistCommand {
            linear_x: 20,
            linear_y: -20,
            linear_z: 0,
            angular_x: 0,
            angular_y: 0,
            angular_z: 0,
            speed: gain(1, 0),
            turn: gain(1, 1),
        }
    );
    s.step('D');
    let t = s.twist();
    assert_eq!((t.linear_x, t.angular_z), (0, 1));
}

#[test]
fn room_for_gain_steps() {
    let mut s = Teleop::new();
    assert!(s.has_room_for('q'));
    s.speed = gain(u64::MAX, 0);
    assert!(!s.has_room_for('q'));
    assert!(!s.has_room_for('w'));
    assert!(s.has_room_for('x'));
    assert!(s.has_room_for('e'));
    assert!(s.has_room_for('i'));
    s.turn = gain(0, u64::MAX);
    assert!(!s.has_room_for('c'));
    assert!(!s.has_room_for('z'));
    assert!(s.has_room_for('s'));
}
