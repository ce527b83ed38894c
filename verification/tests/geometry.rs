use impossible_shape::angle::step_angle;
use impossible_shape::fraction::Fraction;
use impossible_shape::outline;
use impossible_shape::ring::compose;

type Point = (f64, f64);

const TOLERANCE: f64 = 1e-9;

fn radians(angle: Fraction) -> f64 {
    (angle.num as f64 / angle.den as f64).to_radians()
}

fn rotate(point: Point, angle: f64) -> Point {
    let angle = -angle;
    (
        point.0 * angle.cos() - point.1 * angle.sin(),
        point.1 * angle.cos() + point.0 * angle.sin(),
    )
}

fn close(a: Point, b: Point, tolerance: f64) -> bool {
    (a.0 - b.0).abs() <= tolerance && (a.1 - b.1).abs() <= tolerance
}

fn finite(points: &[Point]) -> bool {
    points.iter().all(|p| p.0.is_finite() && p.1.is_finite())
}

/// Places the corners of the base shape for the given lengths.
fn build(sides: u32, size: f64, width: f64) -> Vec<Point> {
    let shape = outline::build(sides);
    let vertex = radians(shape.vertex_angle);
    let step = radians(shape.step);
    let half_step = radians(shape.half_step);
    let slant = width / vertex.sin();
    let run = width / vertex.tan();
    let rise = size / (2.0 * half_step.tan());
    shape
        .corners
        .iter()
        .map(|c| {
            let x = c.half_sizes as f64 * (size / 2.0)
                + c.slants as f64 * slant
                + c.runs as f64 * run;
            let y = -(rise + c.widths as f64 * width);
            rotate((x, y), -(c.steps_back as f64) * step)
        })
        .collect()
}

/// The same seven points, written out one by one from the lengths.
fn build_point_by_point(sides: u32, size: f64, width: f64) -> Vec<Point> {
    let pi = std::f64::consts::PI;
    let inner_angle = ((sides - 2) as f64 * 180.0).to_radians();
    let angle = inner_angle / sides as f64;
    let angle_step = (2.0 * pi) / sides as f64;
    let slant = width / angle.sin();
    let run = width / angle.tan();
    let y_off = size / (2.0 * (pi / sides as f64).tan());
    let near = (-(size / 2.0), -y_off);
    let out = (near.0 - run, near.1 - width);
    let far = (near.0 + size + 2.0 * slant + run, out.1);
    let back_one = rotate(far, -angle_step);
    let back_two = rotate((out.0 - 2.0 * slant, out.1), -2.0 * angle_step);
    let inner = (near.0 + size + slant, near.1);
    vec![near, out, far, back_two, back_one, inner, near]
}

/// Turns the base outline once for every arm of the ring.
fn ring_points(base: &[Point], sides: u32, offset_degrees: f64) -> Vec<Vec<Point>> {
    compose(sides)
        .iter()
        .map(|a| {
            let angle = radians(a.turn) + offset_degrees.to_radians();
            base.iter().map(|p| rotate(*p, angle)).collect()
        })
        .collect()
}

#[test]
fn build_triangle_fifty_fifty() {
    let points = build(3, 50.0, 50.0);
    assert_eq!(points.len(), 7);
    assert_eq!(points[0].0, -25.0);
    assert!((points[0].1 - (-14.433756729740645)).abs() < TOLERANCE);
    assert_eq!(points[0], points[6]);
    assert!(finite(&points));
}

#[test]
fn build_triangle_all_corners() {
    let points = build(3, 50.0, 50.0);
    let slant = 50.0 / 60.0_f64.to_radians().sin();
    let run = 50.0 / 60.0_f64.to_radians().tan();
    let rise = 25.0 / 60.0_f64.to_radians().tan();
    assert!(close(points[1], (-25.0 - run, -rise - 50.0), TOLERANCE));
    assert!(close(points[2], (25.0 + 2.0 * slant + run, -rise - 50.0), TOLERANCE));
    assert!(close(points[5], (25.0 + slant, -rise), TOLERANCE));
    assert!((slant - 57.73502691896258).abs() < TOLERANCE);
    assert!((run - 28.86751345948129).abs() < TOLERANCE);
    assert!((rise - 14.433756729740645).abs() < TOLERANCE);
}

#[test]
fn build_agrees_with_points_written_out() {
    for sides in 3..=10 {
        for (size, width) in [(50.0, 50.0), (0.0, 50.0), (50.0, 0.0), (250.0, 250.0), (17.5, 3.25)] {
            let placed = build(sides, size, width);
            let written = build_point_by_point(sides, size, width);
            assert_eq!(placed.len(), written.len());
            for (a, b) in placed.iter().zip(written.iter()) {
                assert!(close(*a, *b, 1e-6), "{} sides: {:?} against {:?}", sides, a, b);
            }
        }
    }
}

#[test]
fn build_is_closed_for_every_side_count() {
    for sides in 3..=10 {
        let points = build(sides, 50.0, 50.0);
        assert_eq!(points.len(), 7);
        assert_eq!(points[0], points[6]);
    }
}

#[test]
fn build_repeats_bit_for_bit() {
    for sides in 3..=10 {
        let first = build(sides, 123.25, 7.5);
        let second = build(sides, 123.25, 7.5);
        for (a, b) in first.iter().zip(second.iter()) {
            assert_eq!(a.0.to_bits(), b.0.to_bits());
            assert_eq!(a.1.to_bits(), b.1.to_bits());
        }
    }
}

#[test]
fn build_zero_width_is_flat_but_well_formed() {
    for sides in 3..=10 {
        let points = build(sides, 50.0, 0.0);
        assert_eq!(points.len(), 7);
        assert_eq!(points[0], points[6]);
        assert!(finite(&points));
        assert!(points.iter().all(|p| !p.0.is_nan() && !p.1.is_nan()));
        assert!(close(points[1], points[0], TOLERANCE));
        assert_eq!(points[1].1, points[0].1);
        assert_eq!(points[2].1, points[5].1);
    }
}

#[test]
fn build_zero_size_is_finite() {
    let points = build(5, 0.0, 50.0);
    assert_eq!(points.len(), 7);
    assert_eq!(points[0], points[6]);
    assert!(finite(&points));
    assert_eq!(points[0].0, 0.0);
    assert_eq!(points[0].1, 0.0);
}

#[test]
fn build_smallest_and_largest_offered_side_counts() {
    for sides in [3, 10] {
        let points = build(sides, 50.0, 50.0);
        assert_eq!(points.len(), 7);
        assert_eq!(points[0], points[6]);
        assert!(finite(&points));
    }
}

#[test]
fn ring_has_one_turned_outline_per_arm() {
    let base = build(4, 50.0, 50.0);
    let ring = ring_points(&base, 4, 0.0);
    assert_eq!(ring.len(), 4);
    for arm_points in ring.iter() {
        assert_eq!(arm_points.len(), 7);
        assert!(close(arm_points[0], arm_points[6], 0.0));
    }
    for (a, b) in ring[0].iter().zip(base.iter()) {
        assert!(close(*a, *b, TOLERANCE));
    }
    assert!(close(ring[1][0], (base[0].1, -base[0].0), TOLERANCE));
}

#[test]
fn turning_ring_by_one_step_maps_each_arm_onto_next() {
    for sides in 3..=10 {
        for offset in [0.0, 30.0, 360.0] {
            let base = build(sides, 50.0, 50.0);
            let ring = ring_points(&base, sides, offset);
            let step = radians(step_angle(sides));
            for i in 0..sides as usize {
                let next = (i + 1) % sides as usize;
                for (p, q) in ring[i].iter().zip(ring[next].iter()) {
                    assert!(close(rotate(*p, step), *q, 1e-6));
                }
            }
        }
    }
}

#[test]
fn seams_between_neighbouring_arms_close() {
    for sides in 3..=10 {
        let base = build(sides, 50.0, 50.0);
        let ring = ring_points(&base, sides, 0.0);
        for i in 0..sides as usize {
            let next = (i + 1) % sides as usize;
            assert!(close(ring[next][4], ring[i][2], 1e-6));
        }
    }
}

#[test]
fn first_arm_is_base_shape_bit_for_bit() {
    for sides in 3..=10 {
        let base = build(sides, 50.0, 50.0);
        let ring = ring_points(&base, sides, 0.0);
        for (turned, placed) in ring[0].iter().zip(base.iter()) {
            assert_eq!(turned.0.to_bits(), placed.0.to_bits());
            assert_eq!(turned.1.to_bits(), placed.1.to_bits());
        }
    }
}

#[test]
fn turning_arm_back_by_its_own_turn_restores_base_shape() {
    for sides in 3..=10 {
        let base = build(sides, 50.0, 50.0);
        for a in compose(sides) {
            let angle = radians(a.turn);
            for p in base.iter() {
                assert!(close(rotate(rotate(*p, angle), -angle), *p, TOLERANCE));
            }
        }
    }
}
