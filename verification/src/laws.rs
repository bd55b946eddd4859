use vstd::prelude::*;

use crate::bindings::{spec_move_binding, spec_speed_binding, Motion};
use crate::gain::{lemma_scale_factor, Gain};
use crate::teleop::{spec_outcome, Outcome, Teleop};
use crate::bindings::Scale;
use crate::wasd::spec_wasd_command;
use crate::velocity::{spec_vel_check, TICKS_PER_UNIT};

verus! {

/// The state after pressing the keys `keys` one after the other.
pub open spec fn run(s: Teleop, keys: Seq<char>) -> Teleop
    decreases keys.len(),
{
    if keys.len() == 0 {
        s
    } else {
        run(s.after(keys[0]), keys.drop_first())
    }
}

/// `g1` is `g0` raised by 10%: its factor is 11/10 of that of `g0`.
pub open spec fn raised(g1: Gain, g0: Gain) -> bool {
    g1.numer() == 11 * g0.numer() && g1.denom() == 10 * g0.denom()
}

/// `g1` is `g0` lowered by 10%: its factor is 9/10 of that of `g0`.
pub open spec fn lowered(g1: Gain, g0: Gain) -> bool {
    g1.numer() == 9 * g0.numer() && g1.denom() == 10 * g0.denom()
}

/// Every level of the commanded motion stays within [-1, 1], whatever key is
/// pressed.
pub proof fn lemma_motion_stays_in_range(s: Teleop, key: char)
    requires
        s.motion.wf(),
    ensures
        s.after(key).motion.wf(),
{
}

/// Every level of the commanded motion stays within [-1, 1] over any sequence
/// of key presses.
pub proof fn lemma_run_stays_in_range(s: Teleop, keys: Seq<char>)
    requires
        s.motion.wf(),
    ensures
        run(s, keys).motion.wf(),
    decreases keys.len(),
{
    if keys.len() > 0 {
        lemma_motion_stays_in_range(s, keys[0]);
        lemma_run_stays_in_range(s.after(keys[0]), keys.drop_first());
    }
}

/// The arrow keys change a level linearly, one tick (0.05) per press, and
/// hold it at the ends of [-1, 1]; the other components are set to 0.
pub proof fn lemma_arrow_ramp(s: Teleop)
    requires
        s.motion.wf(),
    ensures
        s.after('A').motion == (Motion {
            x: if s.motion.x < TICKS_PER_UNIT { (s.motion.x + 1) as i64 } else { TICKS_PER_UNIT },
            y: 0,
            z: 0,
            th: 0,
        }),
        s.after('B').motion == (Motion {
            x: if s.motion.x > -TICKS_PER_UNIT { (s.motion.x - 1) as i64 } else { (-TICKS_PER_UNIT) as i64 },
            y: 0,
            z: 0,
            th: 0,
        }),
        s.after('D').motion == (Motion {
            x: 0,
            y: 0,
            z: 0,
            th: if s.motion.th < TICKS_PER_UNIT { (s.motion.th + 1) as i64 } else { TICKS_PER_UNIT },
        }),
        s.after('C').motion == (Motion {
            x: 0,
            y: 0,
            z: 0,
            th: if s.motion.th > -TICKS_PER_UNIT {
                (s.motion.th - 1) as i64
            } else {
                (-TICKS_PER_UNIT) as i64
            },
        }),
        s.after('A').speed == s.speed && s.after('A').turn == s.turn,
        s.after('B').speed == s.speed && s.after('B').turn == s.turn,
        s.after('C').speed == s.speed && s.after('C').turn == s.turn,
        s.after('D').speed == s.speed && s.after('D').turn == s.turn,
{
}

/// A step of a level one way is undone by a step the other way, except at the
/// end of the range where the first step was held.
pub proof fn lemma_vel_check_undo(c: int)
    ensures
        -TICKS_PER_UNIT <= c < TICKS_PER_UNIT ==> spec_vel_check(spec_vel_check(c, false), true)
            == c,
        -TICKS_PER_UNIT < c <= TICKS_PER_UNIT ==> spec_vel_check(spec_vel_check(c, true), false)
            == c,
{
}

/// Up then down (or left then right, and the reverse) brings the level back
/// where it was, once the other components are stopped.
pub proof fn lemma_arrow_round_trip(s: Teleop)
    requires
        s.motion.wf(),
    ensures
        s.motion.x < TICKS_PER_UNIT ==> s.after('A').after('B').motion == (Motion {
            x: s.motion.x,
            y: 0,
            z: 0,
            th: 0,
        }),
        s.motion.x > -TICKS_PER_UNIT ==> s.after('B').after('A').motion == (Motion {
            x: s.motion.x,
            y: 0,
            z: 0,
            th: 0,
        }),
        s.motion.th < TICKS_PER_UNIT ==> s.after('D').after('C').motion == (Motion {
            x: 0,
            y: 0,
            z: 0,
            th: s.motion.th,
        }),
        s.motion.th > -TICKS_PER_UNIT ==> s.after('C').after('D').motion == (Motion {
            x: 0,
            y: 0,
            z: 0,
            th: s.motion.th,
        }),
{
    lemma_vel_check_undo(s.motion.x as int);
    lemma_vel_check_undo(s.motion.th as int);
}

/// A speed key leaves the motion as it is (the change takes effect live on the
/// moving robot); every other key leaves both top speeds as they are.
pub proof fn lemma_keys_touch_motion_or_speeds(s: Teleop, key: char)
    ensures
        spec_speed_binding(key) is Some ==> s.after(key).motion == s.motion,
        spec_speed_binding(key) is None ==> s.after(key).speed == s.speed && s.after(key).turn
            == s.turn,
{
}

/// `q`/`z` raise/lower both top speeds by 10%, `w`/`x` only the linear one,
/// `e`/`c` only the angular one.
pub proof fn lemma_speed_keys_scale_by_ten_percent(s: Teleop, key: char)
    requires
        s.can_step(key),
    ensures
        key == 'q' ==> raised(s.after(key).speed, s.speed) && raised(s.after(key).turn, s.turn),
        key == 'z' ==> lowered(s.after(key).speed, s.speed) && lowered(s.after(key).turn, s.turn),
        key == 'w' ==> raised(s.after(key).speed, s.speed) && s.after(key).turn == s.turn,
        key == 'x' ==> lowered(s.after(key).speed, s.speed) && s.after(key).turn == s.turn,
        key == 'e' ==> s.after(key).speed == s.speed && raised(s.after(key).turn, s.turn),
        key == 'c' ==> s.after(key).speed == s.speed && lowered(s.after(key).turn, s.turn),
{
    if let Some(st) = spec_speed_binding(key) {
        lemma_scale_factor(s.speed, st.speed);
        lemma_scale_factor(s.turn, st.turn);
    }
}

/// Two speed keys give the same top speeds in either order.
pub proof fn lemma_speed_keys_commute(s: Teleop, k1: char, k2: char)
    requires
        spec_speed_binding(k1) is Some,
        spec_speed_binding(k2) is Some,
        s.speed.up < u64::MAX - 1,
        s.speed.down < u64::MAX - 1,
        s.turn.up < u64::MAX - 1,
        s.turn.down < u64::MAX - 1,
    ensures
        s.after(k1).after(k2) == s.after(k2).after(k1),
{
}

/// `s`, `S`, `k` and `K` stop the robot: the motion and the published
/// velocities become 0, and the top speeds stay.
pub proof fn lemma_stop_keys(s: Teleop, key: char)
    requires
        key == 's' || key == 'S' || key == 'k' || key == 'K',
    ensures
        s.after(key).motion == Motion::zero(),
        s.after(key).speed == s.speed,
        s.after(key).turn == s.turn,
        s.after(key).spec_twist().linear_x == 0,
        s.after(key).spec_twist().linear_y == 0,
        s.after(key).spec_twist().linear_z == 0,
        s.after(key).spec_twist().angular_x == 0,
        s.after(key).spec_twist().angular_y == 0,
        s.after(key).spec_twist().angular_z == 0,
{
}

/// Pressing a movement key or a stop key again changes nothing more.
pub proof fn lemma_move_keys_idempotent(s: Teleop, key: char)
    requires
        spec_outcome(key) == Outcome::Move || spec_outcome(key) == Outcome::Stop,
    ensures
        s.after(key).after(key) == s.after(key),
{
}

/// CTRL-C and keys that are not commands leave the state unchanged.
pub proof fn lemma_quit_and_invalid_keep_state(s: Teleop, key: char)
    requires
        spec_outcome(key) == Outcome::Quit || spec_outcome(key) == Outcome::Invalid,
    ensures
        s.after(key) == s,
{
}

/// A movement key sets the motion to its binding, whatever it was before.
pub proof fn lemma_move_keys_set_binding(s: Teleop, key: char)
    requires
        spec_outcome(key) == Outcome::Move,
    ensures
        spec_move_binding(key) matches Some(m) && s.after(key).motion == m,
        s.after(key).motion.wf(),
{
}

/// A level is a whole number of units: -1, 0 or 1.
pub open spec fn whole_unit(v: i64) -> bool {
    v == -TICKS_PER_UNIT || v == 0 || v == TICKS_PER_UNIT
}

/// The published command carries the linear levels `x`, `y`, `z` on the linear
/// axes, the turn `th` on the angular `z` axis, nothing on the angular `x` and
/// `y` axes, and the two top speeds as they are.
pub proof fn lemma_twist_follows_motion(s: Teleop)
    ensures
        s.spec_twist().linear_x == s.motion.x,
        s.spec_twist().linear_y == s.motion.y,
        s.spec_twist().linear_z == s.motion.z,
        s.spec_twist().angular_x == 0,
        s.spec_twist().angular_y == 0,
        s.spec_twist().angular_z == s.motion.th,
        s.spec_twist().speed == s.speed,
        s.spec_twist().turn == s.turn,
{
}

/// `t` moves up and `b` down at the top speed, with no other motion; `j` and
/// `l` only turn, left and right.
pub proof fn lemma_vertical_and_turn_keys_publish(s: Teleop)
    ensures
        s.after('t').spec_twist().linear_z == TICKS_PER_UNIT,
        s.after('b').spec_twist().linear_z == -TICKS_PER_UNIT,
        s.after('t').spec_twist().linear_x == 0 && s.after('t').spec_twist().linear_y == 0
            && s.after('t').spec_twist().angular_z == 0,
        s.after('b').spec_twist().linear_x == 0 && s.after('b').spec_twist().linear_y == 0
            && s.after('b').spec_twist().angular_z == 0,
        s.after('j').spec_twist().angular_z == TICKS_PER_UNIT,
        s.after('l').spec_twist().angular_z == -TICKS_PER_UNIT,
        s.after('j').spec_twist().linear_x == 0 && s.after('j').spec_twist().linear_y == 0
            && s.after('j').spec_twist().linear_z == 0,
        s.after('l').spec_twist().linear_x == 0 && s.after('l').spec_twist().linear_y == 0
            && s.after('l').spec_twist().linear_z == 0,
{
}

/// A top speed can be scaled up as long as its count of increases is below the
/// largest `u64`, and down as long as its count of decreases is; keeping it
/// is always possible. There is no other limit.
pub proof fn lemma_gain_room(g: Gain)
    ensures
        g.can_take(Scale::Up) <==> g.up < u64::MAX,
        g.can_take(Scale::Down) <==> g.down < u64::MAX,
        g.can_take(Scale::Keep),
{
}

/// Every key can be pressed while the four counters are below the largest
/// `u64`, keys other than speed keys always; a speed key adds exactly one to
/// the counters it scales.
pub proof fn lemma_room_for_every_key(s: Teleop, key: char)
    ensures
        spec_speed_binding(key) is None ==> s.can_step(key),
        s.speed.up < u64::MAX && s.speed.down < u64::MAX && s.turn.up < u64::MAX && s.turn.down
            < u64::MAX ==> s.can_step(key),
        key == 'q' && s.can_step(key) ==> s.after(key).speed.up == s.speed.up + 1
            && s.after(key).turn.up == s.turn.up + 1,
        key == 'z' && s.can_step(key) ==> s.after(key).speed.down == s.speed.down + 1
            && s.after(key).turn.down == s.turn.down + 1,
{
}

/// The kinds of keys: the four arrow letters, the twenty movement keys, the
/// six speed keys, the two stop keys, CTRL-C as the only key that ends the
/// teleoperation, and every other key is invalid.
pub proof fn lemma_outcome_kinds(key: char)
    ensures
        spec_outcome(key) == Outcome::Arrow <==> (key == 'A' || key == 'B' || key == 'C' || key
            == 'D'),
        spec_outcome(key) == Outcome::Move <==> (key == 'i' || key == 'o' || key == 'j' || key
            == 'l' || key == 'u' || key == ',' || key == '.' || key == 'm' || key == 'O' || key
            == 'I' || key == 'J' || key == 'L' || key == 'U' || key == '<' || key == '>' || key
            == 'M' || key == 't' || key == 'b' || key == 'k' || key == 'K'),
        spec_outcome(key) == Outcome::Scale <==> (key == 'q' || key == 'z' || key == 'w' || key
            == 'x' || key == 'e' || key == 'c'),
        spec_outcome(key) == Outcome::Stop <==> (key == 's' || key == 'S'),
        spec_outcome(key) == Outcome::Quit <==> key == '\x03',
        spec_outcome(key) == Outcome::Invalid <==> !(key == 'A' || key == 'B' || key == 'C'
            || key == 'D' || key == 'i' || key == 'o' || key == 'j' || key == 'l' || key == 'u'
            || key == ',' || key == '.' || key == 'm' || key == 'O' || key == 'I' || key == 'J'
            || key == 'L' || key == 'U' || key == '<' || key == '>' || key == 'M' || key == 't'
            || key == 'b' || key == 'k' || key == 'K' || key == 'q' || key == 'z' || key == 'w'
            || key == 'x' || key == 'e' || key == 'c' || key == 's' || key == 'S' || key
            == '\x03'),
{
}

/// Exactly twenty keys are movement keys. Each commands every level at -1, 0
/// or 1; only `t` and `b` move vertically; the shifted keys never turn and
/// the unshifted ones never strafe.
pub proof fn lemma_move_keys(key: char)
    ensures
        spec_move_binding(key) is Some <==> (key == 'i' || key == 'o' || key == 'j' || key == 'l'
            || key == 'u' || key == ',' || key == '.' || key == 'm' || key == 'O' || key == 'I'
            || key == 'J' || key == 'L' || key == 'U' || key == '<' || key == '>' || key == 'M'
            || key == 't' || key == 'b' || key == 'k' || key == 'K'),
        spec_move_binding(key) matches Some(m) ==> whole_unit(m.x) && whole_unit(m.y)
            && whole_unit(m.z) && whole_unit(m.th),
        spec_move_binding(key) matches Some(m) ==> (m.z != 0 <==> (key == 't' || key == 'b')),
        spec_move_binding(key) matches Some(m) ==> ((key == 'O' || key == 'I' || key == 'J'
            || key == 'L' || key == 'U' || key == '<' || key == '>' || key == 'M' || key == 'K')
            ==> m.th == 0),
        spec_move_binding(key) matches Some(m) ==> ((key == 'u' || key == 'i' || key == 'o'
            || key == 'j' || key == 'l' || key == 'm' || key == ',' || key == '.' || key == 'k'
            || key == 't' || key == 'b') ==> m.y == 0),
        key == 'k' || key == 'K' ==> spec_move_binding(key) == Some(Motion::zero()),
{
}

/// The WASD controller drives at 0.1 with `w` (forward) and `s` (backward),
/// turns at 0.1 with `a` (left) and `d` (right), and commands no motion for
/// every other key.
pub proof fn lemma_wasd_keys(key: Option<char>)
    ensures
        key == Some('w') ==> spec_wasd_command(key).linear_x == 1 && spec_wasd_command(key).angular_z == 0,
        key == Some('s') ==> spec_wasd_command(key).linear_x == -1 && spec_wasd_command(key).angular_z == 0,
        key == Some('a') ==> spec_wasd_command(key).linear_x == 0 && spec_wasd_command(key).angular_z == 1,
        key == Some('d') ==> spec_wasd_command(key).linear_x == 0 && spec_wasd_command(key).angular_z == -1,
        !(key == Some('w') || key == Some('s') || key == Some('a') || key == Some('d'))
            ==> spec_wasd_command(key).linear_x == 0 && spec_wasd_command(key).angular_z == 0,
{
}

} // verus!
