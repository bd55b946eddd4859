use vstd::prelude::*;

verus! {

/// Ticks in one unit of a normalised velocity level: every level that the
/// arrow keys can reach is a multiple of 0.05 = 1/20.
pub const TICKS_PER_UNIT: i64 = 20;

/// The highest level (in ticks) from which an increase still takes a whole
/// step; from above it the level goes to the top of the range (0.95 units).
pub const STEP_LIMIT: i64 = 19;

/// A level lies within the normalised range [-1, 1].
pub open spec fn level_in_range(v: int) -> bool {
    -TICKS_PER_UNIT <= v <= TICKS_PER_UNIT
}

/// One arrow-key step of a level `curr`, in ticks: one tick down (or up),
/// except that a level already past -0.95 (or 0.95) goes to -1 (or 1).
pub open spec fn spec_vel_check(curr: int, decrease: bool) -> int {
    if decrease {
        if curr >= -STEP_LIMIT {
            curr - 1
        } else {
            -TICKS_PER_UNIT as int
        }
    } else if curr <= STEP_LIMIT {
        curr + 1
    } else {
        TICKS_PER_UNIT as int
    }
}

/// Steps the level `curr` (in ticks) linearly down when `decrease` holds, up
/// otherwise, and keeps it from running past the ends of [-1, 1].
pub fn vel_check(curr: i64, decrease: bool) -> (r: i64)
    ensures
        r == spec_vel_check(curr as int, decrease),
        level_in_range(curr as int) ==> level_in_range(r as int),
{
    if decrease {
        if curr >= -STEP_LIMIT {
            curr - 1
        } else {
            -TICKS_PER_UNIT
        }
    } else if curr <= STEP_LIMIT {
        curr + 1
    } else {
        TICKS_PER_UNIT
    }
}

/// The linear level after the key `key`: the up arrow ('A') steps `x` up,
/// the down arrow ('B') steps it down, any other key gives 0.
pub open spec fn spec_l_vel(key: char, x: int) -> int {
    if key == 'A' {
        spec_vel_check(x, false)
    } else if key == 'B' {
        spec_vel_check(x, true)
    } else {
        0
    }
}

/// The angular level after the key `key`: the right arrow ('C') steps `th`
/// down (turning clockwise), the left arrow ('D') steps it up, any other key
/// gives 0.
pub open spec fn spec_a_vel(key: char, th: int) -> int {
    if key == 'C' {
        spec_vel_check(th, true)
    } else if key == 'D' {
        spec_vel_check(th, false)
    } else {
        0
    }
}

/// Linear level for the up and down arrow keys.
pub fn l_vel(key: char, x: i64) -> (r: i64)
    ensures
        r == spec_l_vel(key, x as int),
        level_in_range(x as int) ==> level_in_range(r as int),
{
    match key {
        'A' => vel_check(x, false),
        'B' => vel_check(x, true),
        _ => 0,
    }
}

/// Angular level for the right and left arrow keys.
pub fn a_vel(key: char, th: i64) -> (r: i64)
    ensures
        r == spec_a_vel(key, th as int),
        level_in_range(th as int) ==> level_in_range(r as int),
{
    match key {
        'C' => vel_check(th, true),
        'D' => vel_check(th, false),
        _ => 0,
    }
}

} // verus!
