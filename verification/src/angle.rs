//! The angles of the construction, as exact fractions of a degree.
//!
//! A regular polygon with `sides` sides has interior angles that sum to
//! `(sides - 2) * 180` degrees. Three angles follow from that and are all the
//! construction needs: the interior angle at one vertex, the step between
//! neighbouring arms (a full turn shared out over the sides), and half of
//! that step.

use vstd::prelude::*;
use crate::controls::MIN_SIDES;
use crate::fraction::Fraction;

verus! {

/// Degrees in a full turn.
pub const FULL_TURN: u64 = 360;

/// A whole number of degrees.
pub open spec fn whole(degrees: u64) -> Fraction {
    Fraction { num: degrees, den: 1 }
}

/// Sum of the interior angles of a polygon with `sides` sides, in degrees.
pub open spec fn interior_sum_of(sides: u32) -> int {
    (sides - 2) * 180
}

/// Interior angle at one vertex of the regular polygon: the interior sum
/// shared out evenly.
pub open spec fn vertex_angle_of(sides: u32) -> Fraction {
    Fraction { num: interior_sum_of(sides) as u64, den: sides as u64 }
}

/// Angle between neighbouring arms: a full turn shared out evenly.
pub open spec fn step_angle_of(sides: u32) -> Fraction {
    Fraction { num: 360, den: sides as u64 }
}

/// Half of the step: the angle under which half a side is seen from the
/// centre.
pub open spec fn half_step_angle_of(sides: u32) -> Fraction {
    Fraction { num: 180, den: sides as u64 }
}

/// The angle reached after `steps` steps.
pub open spec fn turn_of(steps: u32, sides: u32) -> Fraction {
    Fraction { num: (360 * steps) as u64, den: sides as u64 }
}

/// For three angles over one denominator: turning by `first` and then by
/// `second` points in the same direction as turning by `target`, that is, the
/// two differ by a whole number of full turns.
pub open spec fn lands_on(first: Fraction, second: Fraction, target: Fraction) -> bool {
    &&& target.den > 0
    &&& first.den == target.den
    &&& second.den == target.den
    &&& (first.num + second.num - target.num) % (360 * target.den) == 0
}

/// Computes the interior angle at one vertex.
pub fn vertex_angle(sides: u32) -> (angle: Fraction)
    requires
        sides >= MIN_SIDES,
    ensures
        angle == vertex_angle_of(sides),
        angle.wf(),
{
    let wide: u64 = sides as u64;
    Fraction { num: (wide - 2) * 180, den: wide }
}

/// Computes the step between neighbouring arms.
pub fn step_angle(sides: u32) -> (angle: Fraction)
    requires
        sides >= MIN_SIDES,
    ensures
        angle == step_angle_of(sides),
        angle.wf(),
{
    Fraction { num: FULL_TURN, den: sides as u64 }
}

/// Computes half of the step between neighbouring arms.
pub fn half_step_angle(sides: u32) -> (angle: Fraction)
    requires
        sides >= MIN_SIDES,
    ensures
        angle == half_step_angle_of(sides),
        angle.wf(),
{
    Fraction { num: FULL_TURN / 2, den: sides as u64 }
}

/// Computes the angle reached after `steps` steps.
pub fn turn(steps: u32, sides: u32) -> (angle: Fraction)
    requires
        sides >= MIN_SIDES,
    ensures
        angle == turn_of(steps, sides),
        angle.wf(),
{
    Fraction { num: FULL_TURN * (steps as u64), den: sides as u64 }
}

/// The interior angle at a vertex and the step between arms add up to a
/// straight angle, and the step is twice the half step.
pub proof fn vertex_and_step_are_supplementary(sides: u32)
    requires
        sides >= MIN_SIDES,
    ensures
        vertex_angle_of(sides).den == step_angle_of(sides).den,
        vertex_angle_of(sides).num + step_angle_of(sides).num == 180 * sides,
        step_angle_of(sides).den == half_step_angle_of(sides).den,
        step_angle_of(sides).num == 2 * half_step_angle_of(sides).num,
{
}

/// With three sides or more, every angle whose sine or tangent divides a
/// length lies strictly inside a half turn: the vertex angle is at least 60
/// and less than 180 degrees, the step is more than 0 and at most 120, the
/// half step more than 0 and at most 60.
pub proof fn angles_stay_inside_half_turn(sides: u32)
    requires
        sides >= MIN_SIDES,
    ensures
        !vertex_angle_of(sides).lt(whole(60)),
        vertex_angle_of(sides).lt(whole(180)),
        whole(0).lt(step_angle_of(sides)),
        !whole(120).lt(step_angle_of(sides)),
        whole(0).lt(half_step_angle_of(sides)),
        !whole(60).lt(half_step_angle_of(sides)),
{
}

} // verus!
