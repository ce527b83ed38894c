//! The ring: one arm per side, each turned one step further and shaded one
//! level brighter than the arm before it.
//!
//! The order of the arms is the order in which they are drawn. Later arms
//! cover earlier ones where they overlap, and that overlap is what makes the
//! figure look impossible, so the order is part of the result.

use vstd::prelude::*;
use vstd::arithmetic::div_mod::lemma_mod_self_0;
use crate::angle::{lands_on, step_angle_of, turn, turn_of};
use crate::controls::MIN_SIDES;
use crate::fraction::Fraction;

verus! {

/// One arm of the ring.
#[derive(Clone, Copy, Debug, PartialEq, Eq, Structural)]
pub struct Arm {
    /// Position in drawing order, counted from zero.
    pub index: u32,
    /// How far the base outline is turned for this arm, in degrees, before
    /// any rotation that applies to the whole ring.
    pub turn: Fraction,
    /// Grey level of the arm, from black at zero to white at one.
    pub shade: Fraction,
}

/// The grey level of arm `index`: the arms share the range from black to
/// white evenly and the last one is white.
pub open spec fn shade_of(index: u32, sides: u32) -> Fraction {
    Fraction { num: (index + 1) as u64, den: sides as u64 }
}

/// Arm `index` of a ring with `sides` sides.
pub open spec fn arm_at(index: u32, sides: u32) -> Arm {
    Arm { index, turn: turn_of(index, sides), shade: shade_of(index, sides) }
}

/// The whole ring, in drawing order.
pub open spec fn ring_of(sides: u32) -> Seq<Arm> {
    Seq::new(sides as nat, |i: int| arm_at(i as u32, sides))
}

/// The arm that follows arm `index` around the ring; the first follows the
/// last.
pub open spec fn next_index(index: u32, sides: u32) -> u32 {
    if index + 1 == sides {
        0
    } else {
        (index + 1) as u32
    }
}

/// Builds arm `index` of a ring with `sides` sides.
pub fn arm(index: u32, sides: u32) -> (a: Arm)
    requires
        sides >= MIN_SIDES,
        index < sides,
    ensures
        a == arm_at(index, sides),
        a.turn.wf(),
        a.shade.wf(),
{
    Arm {
        index,
        turn: turn(index, sides),
        shade: Fraction { num: index as u64 + 1, den: sides as u64 },
    }
}

/// Lays out the ring: `sides` arms in drawing order, arm `i` turned by `i`
/// steps and shaded `(i + 1) / sides`.
pub fn compose(sides: u32) -> (arms: Vec<Arm>)
    requires
        sides >= MIN_SIDES,
    ensures
        arms@ == ring_of(sides),
        arms@.len() == sides,
        forall|i: int| 0 <= i < sides ==> #[trigger] arms@[i] == arm_at(i as u32, sides),
{
    let mut arms: Vec<Arm> = Vec::new();
    let mut index: u32 = 0;
    while index < sides
        invariant
            sides >= MIN_SIDES,
            index <= sides,
            arms@.len() == index,
            forall|i: int| 0 <= i < index ==> #[trigger] arms@[i] == arm_at(i as u32, sides),
        decreases sides - index,
    {
        arms.push(arm(index, sides));
        index = index + 1;
    }
    assert(arms@ =~= ring_of(sides));
    arms
}

/// The first arm is the base shape where it was built: its turn is zero.
pub proof fn first_arm_is_not_turned(sides: u32)
    requires
        sides >= MIN_SIDES,
    ensures
        arm_at(0, sides).index == 0,
        arm_at(0, sides).turn.wf(),
        arm_at(0, sides).turn.num == 0,
{
}

/// Every shade is a proper grey level above black: it lies in `(0, 1]`. The
/// first arm has shade `1 / sides`, and the last arm, and no other, is white.
pub proof fn shades_lie_in_unit_interval(sides: u32, index: u32)
    requires
        sides >= MIN_SIDES,
        index < sides,
    ensures
        shade_of(index, sides).wf(),
        shade_of(index, sides).in_unit_interval(),
        shade_of(0, sides).num == 1,
        shade_of(index, sides).is_one() <==> index == sides - 1,
{
}

/// Shades grow strictly along the drawing order: an earlier arm is darker
/// than a later one.
pub proof fn shades_strictly_increase(sides: u32, earlier: u32, later: u32)
    requires
        sides >= MIN_SIDES,
        earlier < later,
        later < sides,
    ensures
        shade_of(earlier, sides).lt(shade_of(later, sides)),
{
    assert((earlier + 1) * sides < (later + 1) * sides) by (nonlinear_arith)
        requires
            earlier < later,
            sides >= MIN_SIDES,
    ;
}

/// The ring is symmetric under its own step: turning arm `index` one step
/// further puts it where the next arm around the ring already is. A rotation
/// of the whole ring adds the same angle to both and leaves this as it is.
pub proof fn step_maps_arm_onto_next(sides: u32, index: u32)
    requires
        sides >= MIN_SIDES,
        index < sides,
    ensures
        next_index(index, sides) < sides,
        lands_on(
            arm_at(index, sides).turn,
            step_angle_of(sides),
            arm_at(next_index(index, sides), sides).turn,
        ),
{
    let full: int = 360 * sides;
    if index + 1 == sides {
        lemma_mod_self_0(full);
    } else {
        assert(0int % full == 0) by (nonlinear_arith)
            requires
                full > 0,
        ;
    }
}

} // verus!
