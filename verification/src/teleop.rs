use vstd::prelude::*;

use crate::bindings::{move_binding, speed_binding, spec_move_binding, spec_speed_binding, Motion};
use crate::gain::Gain;
use crate::velocity::{a_vel, l_vel, spec_a_vel, spec_l_vel};

verus! {

/// The key that ends the teleoperation (CTRL-C).
pub const QUIT_KEY: char = '\x03';

/// Which kind of command a key is; the program reports each kind in its own way.
#[derive(Clone, Copy, Debug, PartialEq, Eq, Structural)]
pub enum Outcome {
    /// An arrow key ('A' up, 'B' down, 'C' right, 'D' left) ramped a level.
    Arrow,
    /// A movement key set the motion.
    Move,
    /// A speed key changed a top speed.
    Scale,
    /// 's' or 'S' stopped the robot.
    Stop,
    /// CTRL-C: the teleoperation ends and no command is published.
    Quit,
    /// Any other key: nothing changes.
    Invalid,
}

/// The kind of command that `key` is. The arrow keys come first, then the
/// movement keys, then the speed keys, then the stop keys and CTRL-C.
pub open spec fn spec_outcome(key: char) -> Outcome {
    if key == 'A' || key == 'B' || key == 'C' || key == 'D' {
        Outcome::Arrow
    } else if spec_move_binding(key) is Some {
        Outcome::Move
    } else if spec_speed_binding(key) is Some {
        Outcome::Scale
    } else if key == 's' || key == 'S' {
        Outcome::Stop
    } else if key == QUIT_KEY {
        Outcome::Quit
    } else {
        Outcome::Invalid
    }
}

/// The velocity command to publish, as exact values: each linear component
/// is `linear_* / 20` times the top speed, each angular one `angular_* / 20`
/// times the top turn rate, where the top speed is `0.5 · 1.1^speed.up ·
/// 0.9^speed.down` and the top turn rate `1.0 · 1.1^turn.up · 0.9^turn.down`.
#[derive(Clone, Copy, Debug, PartialEq, Eq, Structural)]
pub struct TwistCommand {
    pub linear_x: i64,
    pub linear_y: i64,
    pub linear_z: i64,
    pub angular_x: i64,
    pub angular_y: i64,
    pub angular_z: i64,
    pub speed: Gain,
    pub turn: Gain,
}

/// The state of the teleoperation: the commanded motion and the two top
/// speeds (linear, starting at 0.5, and angular, starting at 1.0).
#[derive(Clone, Copy, Debug, PartialEq, Eq, Structural)]
pub struct Teleop {
    pub motion: Motion,
    pub speed: Gain,
    pub turn: Gain,
}

impl Teleop {
    /// The state after the key `key`.
    pub open spec fn after(self, key: char) -> Teleop {
        if key == 'A' || key == 'B' {
            Teleop {
                motion: Motion { x: spec_l_vel(key, self.motion.x as int) as i64, y: 0, z: 0, th: 0 },
                ..self
            }
        } else if key == 'C' || key == 'D' {
            Teleop {
                motion: Motion { x: 0, y: 0, z: 0, th: spec_a_vel(key, self.motion.th as int) as i64 },
                ..self
            }
        } else if let Some(m) = spec_move_binding(key) {
            Teleop { motion: m, ..self }
        } else if let Some(st) = spec_speed_binding(key) {
            Teleop { speed: self.speed.scaled(st.speed), turn: self.turn.scaled(st.turn), ..self }
        } else if key == 's' || key == 'S' {
            Teleop { motion: Motion::zero(), ..self }
        } else {
            self
        }
    }

    /// The gain counters can record what `key` does to them.
    pub open spec fn can_step(self, key: char) -> bool {
        spec_speed_binding(key) matches Some(st) ==> self.speed.can_take(st.speed)
            && self.turn.can_take(st.turn)
    }

    /// The velocity command that the state publishes.
    pub open spec fn spec_twist(self) -> TwistCommand {
        TwistCommand {
            linear_x: self.motion.x,
            linear_y: self.motion.y,
            linear_z: self.motion.z,
            angular_x: 0,
            angular_y: 0,
            angular_z: self.motion.th,
            speed: self.speed,
            turn: self.turn,
        }
    }

    /// The starting state: standing still, top speed 0.5 and turn rate 1.0.
    pub fn new() -> (t: Teleop)
        ensures
            t.motion == Motion::zero(),
            t.speed == (Gain { up: 0, down: 0 }),
            t.turn == (Gain { up: 0, down: 0 }),
            t.motion.wf(),
    {
        Teleop { motion: Motion::stopped(), speed: Gain::initial(), turn: Gain::initial() }
    }

    /// Whether the gain counters can record what `key` does to them.
    pub fn has_room_for(&self, key: char) -> (r: bool)
        ensures
            r == self.can_step(key),
            r <==> ((key == 'q' ==> self.speed.up < u64::MAX && self.turn.up < u64::MAX)
                && (key == 'z' ==> self.speed.down < u64::MAX && self.turn.down < u64::MAX)
                && (key == 'w' ==> self.speed.up < u64::MAX)
                && (key == 'x' ==> self.speed.down < u64::MAX)
                && (key == 'e' ==> self.turn.up < u64::MAX)
                && (key == 'c' ==> self.turn.down < u64::MAX)),
    {
        match speed_binding(key) {
            Some(st) => self.speed.has_room(st.speed) && self.turn.has_room(st.turn),
            None => true,
        }
    }

    /// Handles one key press: updates the state and tells which kind of
    /// command the key was.
    pub fn step(&mut self, key: char) -> (r: Outcome)
        requires
            old(self).can_step(key),
        ensures
            r == spec_outcome(key),
            *final(self) == old(self).after(key),
            old(self).motion.wf() ==> final(self).motion.wf(),
    {
        if key == 'A' || key == 'B' {
            self.motion = Motion { x: l_vel(key, self.motion.x), y: 0, z: 0, th: 0 };
            Outcome::Arrow
        } else if key == 'C' || key == 'D' {
            self.motion = Motion { x: 0, y: 0, z: 0, th: a_vel(key, self.motion.th) };
            Outcome::Arrow
        } else if let Some(m) = move_binding(key) {
            self.motion = m;
            Outcome::Move
        } else if let Some(st) = speed_binding(key) {
            self.speed = self.speed.scale(st.speed);
            self.turn = self.turn.scale(st.turn);
            Outcome::Scale
        } else if key == 's' || key == 'S' {
            self.motion = Motion::stopped();
            Outcome::Stop
        } else if key == QUIT_KEY {
            Outcome::Quit
        } else {
            Outcome::Invalid
        }
    }

    /// The velocity command for the current state; its angular `x` and `y`
    /// are always 0.
    pub fn twist(&self) -> (c: TwistCommand)
        ensures
            c == self.spec_twist(),
            c.linear_x == self.motion.x,
            c.linear_y == self.motion.y,
            c.linear_z == self.motion.z,
            c.angular_x == 0,
            c.angular_y == 0,
            c.angular_z == self.motion.th,
            c.speed == self.speed,
            c.turn == self.turn,
    {
        TwistCommand {
            linear_x: self.motion.x,
            linear_y: self.motion.y,
            linear_z: self.motion.z,
            angular_x: 0,
            angular_y: 0,
            angular_z: self.motion.th,
            speed: self.speed,
            turn: self.turn,
        }
    }
}

} // verus!
