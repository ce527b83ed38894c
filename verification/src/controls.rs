//! The side count and the limits of the interactive controls.

use vstd::prelude::*;

verus! {

/// Fewest sides for which the construction is defined.
pub const MIN_SIDES: u32 = 3;

/// Most sides the side-count control offers.
pub const MAX_CONTROL_SIDES: u32 = 10;

/// Upper end of the inner-size and width controls; both start at zero.
pub const MAX_CONTROL_LENGTH: u32 = 250;

/// Upper end of the rotation control, in degrees; it starts at zero.
pub const MAX_CONTROL_DEGREES: u32 = 360;

/// Side count shown when a session starts.
pub const INITIAL_SIDES: u32 = 3;

/// Inner size shown when a session starts.
pub const INITIAL_SIZE: u32 = 50;

/// Width shown when a session starts.
pub const INITIAL_WIDTH: u32 = 50;

/// Rotation, in degrees, shown when a session starts.
pub const INITIAL_DEGREES: u32 = 0;

/// Whether a ring can be built with this many sides.
pub open spec fn sides_allowed(sides: int) -> bool {
    sides >= MIN_SIDES
}

/// The value nearest to `raw` that the side-count control can show.
pub open spec fn nearest_control_sides(raw: int) -> int {
    if raw < MIN_SIDES {
        MIN_SIDES as int
    } else if raw > MAX_CONTROL_SIDES {
        MAX_CONTROL_SIDES as int
    } else {
        raw
    }
}

/// Accepts a side count that the construction is defined for and rejects
/// every other: `Some(raw)` exactly when `raw >= 3`.
pub fn checked_sides(raw: i32) -> (sides: Option<u32>)
    ensures
        sides.is_some() <==> sides_allowed(raw as int),
        sides.is_some() ==> sides.unwrap() == raw,
{
    if raw >= 3 {
        Some(raw as u32)
    } else {
        None
    }
}

/// Moves a side count into the range of the side-count control, changing it
/// as little as possible.
pub fn clamp_sides(raw: i32) -> (sides: u32)
    ensures
        sides == nearest_control_sides(raw as int),
        MIN_SIDES <= sides <= MAX_CONTROL_SIDES,
        sides_allowed(sides as int),
{
    if raw < 3 {
        MIN_SIDES
    } else if raw > 10 {
        MAX_CONTROL_SIDES
    } else {
        raw as u32
    }
}

} // verus!
