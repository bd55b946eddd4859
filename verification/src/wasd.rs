use vstd::prelude::*;

verus! {

/// The command of the simple WASD controller, in tenths: forward speed
/// `linear_x / 10` and turn rate `angular_z / 10`; all other components of the
/// published velocity are 0.
#[derive(Clone, Copy, Debug, PartialEq, Eq, Structural)]
pub struct WasdCommand {
    pub linear_x: i8,
    pub angular_z: i8,
}

/// What a key press commands: `w`/`s` drive forward/backward at 0.1, `a`/`d`
/// turn left/right at 0.1, and any other key, or a key that is not a
/// character (`None`), commands no motion.
pub open spec fn spec_wasd_command(key: Option<char>) -> WasdCommand {
    match key {
        Some('w') => WasdCommand { linear_x: 1, angular_z: 0 },
        Some('s') => WasdCommand { linear_x: -1i8, angular_z: 0 },
        Some('a') => WasdCommand { linear_x: 0, angular_z: 1 },
        Some('d') => WasdCommand { linear_x: 0, angular_z: -1i8 },
        _ => WasdCommand { linear_x: 0, angular_z: 0 },
    }
}

/// The command that a key press publishes.
pub fn wasd_command(key: Option<char>) -> (c: WasdCommand)
    ensures
        c == spec_wasd_command(key),
        key == Some('w') ==> c.linear_x == 1 && c.angular_z == 0,
        key == Some('s') ==> c.linear_x == -1 && c.angular_z == 0,
        key == Some('a') ==> c.linear_x == 0 && c.angular_z == 1,
        key == Some('d') ==> c.linear_x == 0 && c.angular_z == -1,
        !(key == Some('w') || key == Some('s') || key == Some('a') || key == Some('d'))
            ==> c.linear_x == 0 && c.angular_z == 0,
        c.linear_x == 0 || c.angular_z == 0,
        -1 <= c.linear_x <= 1,
        -1 <= c.angular_z <= 1,
{
    match key {
        Some('w') => WasdCommand { linear_x: 1, angular_z: 0 },
        Some('s') => WasdCommand { linear_x: -1, angular_z: 0 },
        Some('a') => WasdCommand { linear_x: 0, angular_z: 1 },
        Some('d') => WasdCommand { linear_x: 0, angular_z: -1 },
        _ => WasdCommand { linear_x: 0, angular_z: 0 },
    }
}

} // verus!
