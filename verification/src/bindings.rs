use vstd::prelude::*;

use crate::velocity::{level_in_range, TICKS_PER_UNIT};

verus! {

/// A commanded motion as four velocity levels, each in ticks of 1/20 of a
/// unit: linear `x`, `y`, `z` (scaled by the top speed when published) and
/// the turn `th` about the vertical axis (scaled by the top turn rate).
#[derive(Clone, Copy, Debug, PartialEq, Eq, Structural)]
pub struct Motion {
    pub x: i64,
    pub y: i64,
    pub z: i64,
    pub th: i64,
}

impl Motion {
    /// The motion with the given directions, each a whole number of units.
    pub open spec fn units(x: int, y: int, z: int, th: int) -> Motion {
        Motion {
            x: (x * TICKS_PER_UNIT) as i64,
            y: (y * TICKS_PER_UNIT) as i64,
            z: (z * TICKS_PER_UNIT) as i64,
            th: (th * TICKS_PER_UNIT) as i64,
        }
    }

    /// No motion at all.
    pub open spec fn zero() -> Motion {
        Motion { x: 0, y: 0, z: 0, th: 0 }
    }

    /// Every level of the motion lies within [-1, 1].
    pub open spec fn wf(self) -> bool {
        &&& level_in_range(self.x as int)
        &&& level_in_range(self.y as int)
        &&& level_in_range(self.z as int)
        &&& level_in_range(self.th as int)
    }

    /// Builds the motion with the given unit directions (each -1, 0 or 1).
    pub fn from_units(x: i8, y: i8, z: i8, th: i8) -> (m: Motion)
        requires
            -1 <= x <= 1,
            -1 <= y <= 1,
            -1 <= z <= 1,
            -1 <= th <= 1,
        ensures
            m == Motion::units(x as int, y as int, z as int, th as int),
            m.wf(),
    {
        Motion {
            x: x as i64 * TICKS_PER_UNIT,
            y: y as i64 * TICKS_PER_UNIT,
            z: z as i64 * TICKS_PER_UNIT,
            th: th as i64 * TICKS_PER_UNIT,
        }
    }

    /// The motion that stops the robot.
    pub fn stopped() -> (m: Motion)
        ensures
            m == Motion::zero(),
    {
        Motion { x: 0, y: 0, z: 0, th: 0 }
    }
}

/// The movement keys and the motion that each commands: the `u i o / j k l /
/// m , .` block drives and turns, its shifted form `U I O / J K L / M < >`
/// drives and strafes, `t` and `b` move up and down, and `k` and `K` stop.
pub open spec fn spec_move_binding(key: char) -> Option<Motion> {
    match key {
        'i' => Some(Motion::units(1, 0, 0, 0)),
        'o' => Some(Motion::units(1, 0, 0, -1)),
        'j' => Some(Motion::units(0, 0, 0, 1)),
        'l' => Some(Motion::units(0, 0, 0, -1)),
        'u' => Some(Motion::units(1, 0, 0, 1)),
        ',' => Some(Motion::units(-1, 0, 0, 0)),
        '.' => Some(Motion::units(-1, 0, 0, 1)),
        'm' => Some(Motion::units(-1, 0, 0, -1)),
        'O' => Some(Motion::units(1, -1, 0, 0)),
        'I' => Some(Motion::units(1, 0, 0, 0)),
        'J' => Some(Motion::units(0, 1, 0, 0)),
        'L' => Some(Motion::units(0, -1, 0, 0)),
        'U' => Some(Motion::units(1, 1, 0, 0)),
        '<' => Some(Motion::units(-1, 0, 0, 0)),
        '>' => Some(Motion::units(-1, -1, 0, 0)),
        'M' => Some(Motion::units(-1, 1, 0, 0)),
        't' => Some(Motion::units(0, 0, 1, 0)),
        'b' => Some(Motion::units(0, 0, -1, 0)),
        'k' => Some(Motion::units(0, 0, 0, 0)),
        'K' => Some(Motion::units(0, 0, 0, 0)),
        _ => None,
    }
}

/// Looks up the motion that a movement key commands; `None` for any other key.
pub fn move_binding(key: char) -> (r: Option<Motion>)
    ensures
        r == spec_move_binding(key),
        r matches Some(m) ==> m.wf(),
{
    match key {
        'i' => Some(Motion::from_units(1, 0, 0, 0)),
        'o' => Some(Motion::from_units(1, 0, 0, -1)),
        'j' => Some(Motion::from_units(0, 0, 0, 1)),
        'l' => Some(Motion::from_units(0, 0, 0, -1)),
        'u' => Some(Motion::from_units(1, 0, 0, 1)),
        ',' => Some(Motion::from_units(-1, 0, 0, 0)),
        '.' => Some(Motion::from_units(-1, 0, 0, 1)),
        'm' => Some(Motion::from_units(-1, 0, 0, -1)),
        'O' => Some(Motion::from_units(1, -1, 0, 0)),
        'I' => Some(Motion::from_units(1, 0, 0, 0)),
        'J' => Some(Motion::from_units(0, 1, 0, 0)),
        'L' => Some(Motion::from_units(0, -1, 0, 0)),
        'U' => Some(Motion::from_units(1, 1, 0, 0)),
        '<' => Some(Motion::from_units(-1, 0, 0, 0)),
        '>' => Some(Motion::from_units(-1, -1, 0, 0)),
        'M' => Some(Motion::from_units(-1, 1, 0, 0)),
        't' => Some(Motion::from_units(0, 0, 1, 0)),
        'b' => Some(Motion::from_units(0, 0, -1, 0)),
        'k' => Some(Motion::from_units(0, 0, 0, 0)),
        'K' => Some(Motion::from_units(0, 0, 0, 0)),
        _ => None,
    }
}

/// How one speed key scales a top speed: by 1.1, by 0.9, or not at all.
#[derive(Clone, Copy, Debug, PartialEq, Eq, Structural)]
pub enum Scale {
    Up,
    Down,
    Keep,
}

/// What one speed key does to the top linear speed and the top turn rate.
#[derive(Clone, Copy, Debug, PartialEq, Eq, Structural)]
pub struct ScaleStep {
    pub speed: Scale,
    pub turn: Scale,
}

/// The speed keys: `q`/`z` raise/lower both top speeds by 10%, `w`/`x` only
/// the linear one, `e`/`c` only the angular one.
pub open spec fn spec_speed_binding(key: char) -> Option<ScaleStep> {
    match key {
        'q' => Some(ScaleStep { speed: Scale::Up, turn: Scale::Up }),
        'z' => Some(ScaleStep { speed: Scale::Down, turn: Scale::Down }),
        'w' => Some(ScaleStep { speed: Scale::Up, turn: Scale::Keep }),
        'x' => Some(ScaleStep { speed: Scale::Down, turn: Scale::Keep }),
        'e' => Some(ScaleStep { speed: Scale::Keep, turn: Scale::Up }),
        'c' => Some(ScaleStep { speed: Scale::Keep, turn: Scale::Down }),
        _ => None,
    }
}

/// Looks up what a speed key does to the top speeds; `None` for any other key.
pub fn speed_binding(key: char) -> (r: Option<ScaleStep>)
    ensures
        r == spec_speed_binding(key),
{
    match key {
        'q' => Some(ScaleStep { speed: Scale::Up, turn: Scale::Up }),
        'z' => Some(ScaleStep { speed: Scale::Down, turn: Scale::Down }),
        'w' => Some(ScaleStep { speed: Scale::Up, turn: Scale::Keep }),
        'x' => Some(ScaleStep { speed: Scale::Down, turn: Scale::Keep }),
        'e' => Some(ScaleStep { speed: Scale::Keep, turn: Scale::Up }),
        'c' => Some(ScaleStep { speed: Scale::Keep, turn: Scale::Down }),
        _ => None,
    }
}

} // verus!
