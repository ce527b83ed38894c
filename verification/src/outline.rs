//! The outline of one arm: seven corners, the last closing onto the first.
//!
//! Four lengths fix an arm. Two are given: the inner `size` and the `width`.
//! Two are derived from the width and the vertex angle: the `slant`, which is
//! the width divided by the sine of that angle, and the `run`, which is the
//! width divided by its tangent. A fifth, the `rise`, is the distance from the
//! centre of the ring to the inner edge: the size divided by twice the
//! tangent of the half step.
//!
//! Every corner is a whole-number combination of those lengths, turned back
//! by a whole number of steps. A [`Corner`] records the whole numbers; the
//! caller supplies the lengths:
//!
//! ```text
//! x = half_sizes * size / 2 + slants * slant + runs * run
//! y = -(rise + widths * width)
//! ```
//!
//! and the point `(x, y)` is then turned back by `steps_back` steps.

use vstd::prelude::*;
use vstd::arithmetic::div_mod::lemma_mod_multiples_basic;
use crate::angle::{
    half_step_angle, half_step_angle_of, step_angle, step_angle_of, vertex_angle, vertex_angle_of,
};
use crate::controls::MIN_SIDES;
use crate::fraction::Fraction;
use crate::ring::next_index;

verus! {

/// Number of corners in the outline of an arm, the closing corner included.
pub const CORNERS: usize = 7;

/// How one corner of an arm is put together.
#[derive(Clone, Copy, Debug, PartialEq, Eq, Structural)]
pub struct Corner {
    /// Halves of the inner size in the x coordinate.
    pub half_sizes: i8,
    /// Slants in the x coordinate.
    pub slants: i8,
    /// Runs in the x coordinate.
    pub runs: i8,
    /// Widths by which the corner lies beyond the inner edge.
    pub widths: i8,
    /// Steps by which the corner is turned back after it has been placed.
    pub steps_back: u8,
}

/// The corner with the given counts of half sizes, slants, runs and widths,
/// turned back by `steps_back` steps.
pub open spec fn corner_of(half_sizes: int, slants: int, runs: int, widths: int, steps_back: int) -> Corner {
    Corner {
        half_sizes: half_sizes as i8,
        slants: slants as i8,
        runs: runs as i8,
        widths: widths as i8,
        steps_back: steps_back as u8,
    }
}

/// The base shape of a ring in exact terms: the angles from which the
/// lengths are derived and the corners that are placed with them.
#[derive(Clone, Debug, PartialEq, Eq)]
pub struct BaseShape {
    /// Sides of the regular polygon that the ring follows.
    pub sides: u32,
    /// Interior angle at a vertex of that polygon, in degrees. Its sine
    /// divides the width to give the slant, its tangent to give the run.
    pub vertex_angle: Fraction,
    /// Angle between neighbouring arms, in degrees.
    pub step: Fraction,
    /// Half of the step, in degrees. Twice its tangent divides the size to
    /// give the rise.
    pub half_step: Fraction,
    /// The outline, corner by corner, closed.
    pub corners: Vec<Corner>,
}

impl BaseShape {
    /// A base shape is well formed when it is the base shape of its side
    /// count: that leaves no freedom in any field.
    pub open spec fn wf(&self) -> bool {
        &&& self.sides >= MIN_SIDES
        &&& self.vertex_angle == vertex_angle_of(self.sides)
        &&& self.step == step_angle_of(self.sides)
        &&& self.half_step == half_step_angle_of(self.sides)
        &&& self.corners@ == outline_of()
    }
}

/// Corner `k` of the outline.
///
/// Corner 0 is the near end of the inner edge; corner 1 lies one width out
/// and one run back from it; corner 2 is the far end of the outer edge;
/// corner 4 is corner 2 turned back one step; corner 3 is the mirror image of
/// corner 2 turned back two steps; corner 5 lies on the inner edge, one slant
/// beyond its far end; corner 6 is corner 0 again.
pub open spec fn corner_at(k: int) -> Corner {
    if k == 1 {
        corner_of(-1, 0, -1, 1, 0)
    } else if k == 2 {
        corner_of(1, 2, 1, 1, 0)
    } else if k == 3 {
        corner_of(-1, -2, -1, 1, 2)
    } else if k == 4 {
        corner_of(1, 2, 1, 1, 1)
    } else if k == 5 {
        corner_of(1, 1, 0, 0, 0)
    } else {
        corner_of(-1, 0, 0, 0, 0)
    }
}

/// The outline, corner by corner.
pub open spec fn outline_of() -> Seq<Corner> {
    Seq::new(7, |k: int| corner_at(k))
}

/// The x coordinate at which a corner is placed before it is turned, for a
/// given half size, slant and run.
pub open spec fn placed_x(corner: Corner, half_size: int, slant: int, run: int) -> int {
    corner.half_sizes * half_size + corner.slants * slant + corner.runs * run
}

/// The y coordinate at which a corner is placed before it is turned, for a
/// given rise and width. The y axis points down the screen and the arm lies
/// above the centre, so the coordinate is the distance from the centre,
/// negated.
pub open spec fn placed_y(corner: Corner, rise: int, width: int) -> int {
    -(rise + corner.widths * width)
}

/// For the given lengths, every corner of `corners` is placed where the
/// construction puts it. With the inner size written as twice `half_size`:
///
/// * corner 0 is placed at `(-half_size, -rise)`;
/// * corner 1 lies one run to the left of corner 0 and one width further out;
/// * corner 2 lies the size, two slants and one run to the right of corner 0,
///   as far out as corner 1;
/// * corner 3 is placed two slants to the left of corner 1;
/// * corner 4 is placed where corner 2 is;
/// * corner 5 lies the size and one slant to the right of corner 0, on the
///   inner edge;
/// * corner 6 is placed where corner 0 is.
pub open spec fn placed_as_constructed(
    corners: Seq<Corner>,
    half_size: int,
    slant: int,
    run: int,
    rise: int,
    width: int,
) -> bool {
    &&& placed_x(corners[0], half_size, slant, run) == -half_size
    &&& placed_y(corners[0], rise, width) == -rise
    &&& placed_x(corners[1], half_size, slant, run)
        == placed_x(corners[0], half_size, slant, run) - run
    &&& placed_y(corners[1], rise, width) == placed_y(corners[0], rise, width) - width
    &&& placed_x(corners[2], half_size, slant, run)
        == placed_x(corners[0], half_size, slant, run) + 2 * half_size + 2 * slant + run
    &&& placed_y(corners[2], rise, width) == placed_y(corners[1], rise, width)
    &&& placed_x(corners[3], half_size, slant, run)
        == placed_x(corners[1], half_size, slant, run) - 2 * slant
    &&& placed_y(corners[3], rise, width) == placed_y(corners[1], rise, width)
    &&& placed_x(corners[4], half_size, slant, run) == placed_x(corners[2], half_size, slant, run)
    &&& placed_y(corners[4], rise, width) == placed_y(corners[2], rise, width)
    &&& placed_x(corners[5], half_size, slant, run)
        == placed_x(corners[0], half_size, slant, run) + 2 * half_size + slant
    &&& placed_y(corners[5], rise, width) == placed_y(corners[0], rise, width)
    &&& placed_x(corners[6], half_size, slant, run) == placed_x(corners[0], half_size, slant, run)
    &&& placed_y(corners[6], rise, width) == placed_y(corners[0], rise, width)
}

/// Every corner of `corners` is turned as the construction turns it: corner
/// 3 back by two steps, corner 4 back by one, the others not at all.
pub open spec fn turned_as_constructed(corners: Seq<Corner>) -> bool {
    &&& corners[0].steps_back == 0
    &&& corners[1].steps_back == 0
    &&& corners[2].steps_back == 0
    &&& corners[3].steps_back == 2
    &&& corners[4].steps_back == 1
    &&& corners[5].steps_back == 0
    &&& corners[6].steps_back == 0
}

/// `corners` is an outline as the construction describes it: seven corners,
/// each placed as constructed whatever the lengths are, each turned as
/// constructed. The coordinates are whole-number combinations of the
/// lengths, so what holds for all whole lengths holds for all lengths.
pub open spec fn follows_construction(corners: Seq<Corner>) -> bool {
    &&& corners.len() == 7
    &&& turned_as_constructed(corners)
    &&& forall|half_size: int, slant: int, run: int, rise: int, width: int|
        #[trigger] placed_as_constructed(corners, half_size, slant, run, rise, width)
}

/// Two corners are placed at the same point before they are turned.
pub open spec fn same_position(a: Corner, b: Corner) -> bool {
    &&& a.half_sizes == b.half_sizes
    &&& a.slants == b.slants
    &&& a.runs == b.runs
    &&& a.widths == b.widths
}

/// Corner `a` is placed at the mirror image of corner `b` in the axis through
/// the centre of the ring and the middle of the inner edge.
pub open spec fn mirrored_position(a: Corner, b: Corner) -> bool {
    &&& a.half_sizes == -b.half_sizes
    &&& a.slants == -b.slants
    &&& a.runs == -b.runs
    &&& a.widths == b.widths
}

/// Steps by which a corner has been turned in all once its arm is in place:
/// forward with the arm, back by the corner's own count.
pub open spec fn net_steps(corner: Corner, arm_index: u32) -> int {
    arm_index - corner.steps_back
}

/// Corner `a` of arm `i` and corner `b` of arm `j` are the same point of the
/// ring: placed alike and turned alike, up to whole turns.
pub open spec fn coincide(a: Corner, i: u32, b: Corner, j: u32, sides: u32) -> bool {
    &&& same_position(a, b)
    &&& (net_steps(a, i) - net_steps(b, j)) % (sides as int) == 0
}

/// Builds the outline of an arm: seven corners in drawing order, closed.
pub fn outline() -> (corners: Vec<Corner>)
    ensures
        corners@ == outline_of(),
        follows_construction(corners@),
        corners@.len() == CORNERS,
        corners@[0] == corners@[6],
{
    let near = Corner { half_sizes: -1, slants: 0, runs: 0, widths: 0, steps_back: 0 };
    let far = Corner { half_sizes: 1, slants: 2, runs: 1, widths: 1, steps_back: 0 };
    let mut corners: Vec<Corner> = Vec::new();
    corners.push(near);
    corners.push(Corner { runs: -1, widths: 1, ..near });
    corners.push(far);
    corners.push(Corner { half_sizes: -1, slants: -2, runs: -1, widths: 1, steps_back: 2 });
    corners.push(Corner { steps_back: 1, ..far });
    corners.push(Corner { half_sizes: 1, slants: 1, runs: 0, widths: 0, steps_back: 0 });
    corners.push(near);
    assert(corners@ =~= outline_of());
    proof {
        outline_follows_construction();
    }
    corners
}

/// Builds the base shape of a ring with `sides` sides.
pub fn build(sides: u32) -> (shape: BaseShape)
    requires
        sides >= MIN_SIDES,
    ensures
        shape.sides == sides,
        shape.wf(),
        follows_construction(shape.corners@),
        shape.corners@.len() == CORNERS,
        shape.corners@[0] == shape.corners@[6],
{
    BaseShape {
        sides,
        vertex_angle: vertex_angle(sides),
        step: step_angle(sides),
        half_step: half_step_angle(sides),
        corners: outline(),
    }
}

/// The base shape depends on the side count and on nothing else: two well
/// formed base shapes for one side count agree in every field.
pub proof fn base_shape_is_determined(first: BaseShape, second: BaseShape)
    requires
        first.wf(),
        second.wf(),
        first.sides == second.sides,
    ensures
        first.vertex_angle == second.vertex_angle,
        first.step == second.step,
        first.half_step == second.half_step,
        first.corners@ == second.corners@,
{
}

/// The outline has seven corners and is closed: the last is the first.
pub proof fn outline_is_closed()
    ensures
        outline_of().len() == 7,
        outline_of()[6] == outline_of()[0],
{
}

/// The outline is the one that the construction describes.
pub proof fn outline_follows_construction()
    ensures
        follows_construction(outline_of()),
{
    let corners = outline_of();
    assert forall|half_size: int, slant: int, run: int, rise: int, width: int|
        #[trigger] placed_as_constructed(corners, half_size, slant, run, rise, width) by {
        lemma_small_multiples(corners[0], half_size, slant, run, width);
        lemma_small_multiples(corners[1], half_size, slant, run, width);
        lemma_small_multiples(corners[2], half_size, slant, run, width);
        lemma_small_multiples(corners[3], half_size, slant, run, width);
        lemma_small_multiples(corners[4], half_size, slant, run, width);
        lemma_small_multiples(corners[5], half_size, slant, run, width);
        lemma_small_multiples(corners[6], half_size, slant, run, width);
    }
}

/// The construction leaves no choice: a sequence of corners that follows it
/// is the outline.
pub proof fn construction_fixes_outline(corners: Seq<Corner>)
    requires
        follows_construction(corners),
    ensures
        corners == outline_of(),
{
    assert(placed_as_constructed(corners, 1, 0, 0, 0, 0));
    assert(placed_as_constructed(corners, 0, 1, 0, 0, 0));
    assert(placed_as_constructed(corners, 0, 0, 1, 0, 0));
    assert(placed_as_constructed(corners, 0, 0, 0, 0, 1));
    assert forall|k: int| 0 <= k < 7 implies corners[k] == outline_of()[k] by {
        let c = corners[k];
        assert(c.half_sizes * 1 == c.half_sizes) by (nonlinear_arith);
        assert(c.slants * 1 == c.slants) by (nonlinear_arith);
        assert(c.runs * 1 == c.runs) by (nonlinear_arith);
        assert(c.widths * 1 == c.widths) by (nonlinear_arith);
        assert(c.half_sizes * 0 == 0) by (nonlinear_arith);
        assert(c.slants * 0 == 0) by (nonlinear_arith);
        assert(c.runs * 0 == 0) by (nonlinear_arith);
        assert(c.widths * 0 == 0) by (nonlinear_arith);
    }
    assert(corners =~= outline_of());
}

/// A length taken `count` times, for a count between -2 and 2, written
/// without a product.
spec fn repeated(count: int, length: int) -> int {
    if count == -2 {
        -length - length
    } else if count == -1 {
        -length
    } else if count == 0 {
        0
    } else if count == 1 {
        length
    } else {
        length + length
    }
}

proof fn lemma_small_multiple(count: int, length: int)
    requires
        -2 <= count <= 2,
    ensures
        count * length == repeated(count, length),
{
    assert(count * length == repeated(count, length)) by (nonlinear_arith)
        requires
            -2 <= count <= 2,
            count == -2 ==> repeated(count, length) == -length - length,
            count == -1 ==> repeated(count, length) == -length,
            count == 0 ==> repeated(count, length) == 0,
            count == 1 ==> repeated(count, length) == length,
            count == 2 ==> repeated(count, length) == length + length,
    ;
}

/// The products in the coordinates of a corner, written without products.
proof fn lemma_small_multiples(corner: Corner, half_size: int, slant: int, run: int, width: int)
    requires
        -2 <= corner.half_sizes <= 2,
        -2 <= corner.slants <= 2,
        -2 <= corner.runs <= 2,
        -2 <= corner.widths <= 2,
    ensures
        corner.half_sizes * half_size == repeated(corner.half_sizes as int, half_size),
        corner.slants * slant == repeated(corner.slants as int, slant),
        corner.runs * run == repeated(corner.runs as int, run),
        corner.widths * width == repeated(corner.widths as int, width),
{
    lemma_small_multiple(corner.half_sizes as int, half_size);
    lemma_small_multiple(corner.slants as int, slant);
    lemma_small_multiple(corner.runs as int, run);
    lemma_small_multiple(corner.widths as int, width);
}

/// The outer edge is level and centred: corners 1 and 2 lie equally far out,
/// and corner 3 is placed at the mirror image of corner 2.
pub proof fn outer_edge_is_centred()
    ensures
        corner_at(1).widths == corner_at(2).widths,
        mirrored_position(corner_at(3), corner_at(2)),
{
}

/// The seams of the ring close: corner 4 of an arm is the far end of the
/// outer edge of the arm before it, and corner 3 of an arm has been turned,
/// in all, as far as the arm two places before it.
pub proof fn seams_close(sides: u32, index: u32)
    requires
        sides >= MIN_SIDES,
        index < sides,
    ensures
        coincide(corner_at(4), next_index(index, sides), corner_at(2), index, sides),
        (net_steps(corner_at(3), next_index(next_index(index, sides), sides)) - index) % (
        sides as int) == 0,
{
    let wide: int = sides as int;
    assert(0int % wide == 0) by (nonlinear_arith)
        requires
            wide > 0,
    ;
    lemma_mod_multiples_basic(-1, wide);
}

} // verus!
