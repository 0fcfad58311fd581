use vortex::delta_utils::{
    calculate_duration, distance_3d, distance_catmull, interpolate_catmull_point,
    interpolate_line_point, is_point_legal, vertex_from_spline,
};
use vortex::errors::ToolpathError;
use vortex::geometry::BlenderPoint3;

fn p(x: i64, y: i64, z: i64) -> BlenderPoint3 {
    BlenderPoint3 { x, y, z }
}

#[test]
fn line_interpolation_quarter_point() {
    let a = p(0, 0, 0);
    let b = p(100, 50, -100);
    let q = interpolate_line_point(&a, &b, 25).unwrap();
    assert_eq!(q, p(25, 12, -25));
}

#[test]
fn line_interpolation_rejects_endpoints() {
    let a = p(0, 0, 0);
    let b = p(100, 0, 0);
    assert_eq!(
        interpolate_line_point(&a, &b, 0),
        Err(ToolpathError::InterpolationWeight)
    );
    assert_eq!(
        interpolate_line_point(&a, &b, 100),
        Err(ToolpathError::InterpolationWeight)
    );
    assert_eq!(
        interpolate_line_point(&a, &b, 250),
        Err(ToolpathError::InterpolationWeight)
    );
}

#[test]
fn catmull_midpoint_of_collinear_points_lies_on_line() {
    // Equally spaced collinear control points: the interior of the segment
    // is traversed linearly, so the midpoint sample is the exact middle.
    let pts = [p(0, 0, 0), p(100, 0, 0), p(200, 0, 0), p(300, 0, 0)];
    let q = interpolate_catmull_point(&pts, 50).unwrap();
    assert_eq!(q, p(150, 0, 0));
    // Every interior sample of collinear points stays on the line (y=z=0).
    for k in 1..100 {
        let s = interpolate_catmull_point(&pts, k).unwrap();
        assert_eq!(s.y, 0);
        assert_eq!(s.z, 0);
        assert!(s.x >= 0 && s.x <= 300);
    }
}

#[test]
fn catmull_midpoint_matches_hermite_fixture() {
    // Analytic value for control values (0, 0, 100, 0) at t = 0.5 is
    // 0.5 * (0 + 100*0.5 + 400*0.25 - 300*0.125) = 56.25, floored to 56.
    let pts = [p(0, 0, 0), p(0, 0, 0), p(100, 0, 0), p(0, 0, 0)];
    let q = interpolate_catmull_point(&pts, 50).unwrap();
    assert_eq!(q.x, 56);
}

#[test]
fn catmull_rejects_exterior_weights() {
    let pts = [p(0, 0, 0), p(0, 0, 0), p(100, 0, 0), p(100, 0, 0)];
    assert_eq!(
        interpolate_catmull_point(&pts, 0),
        Err(ToolpathError::InterpolationWeight)
    );
    assert_eq!(
        interpolate_catmull_point(&pts, 100),
        Err(ToolpathError::InterpolationWeight)
    );
}

#[test]
fn distance_of_pythagorean_triple() {
    assert_eq!(distance_3d(&p(0, 0, 0), &p(3, 4, 0)), 5);
    assert_eq!(distance_3d(&p(0, 0, 0), &p(1, 1, 0)), 1);
    assert_eq!(distance_3d(&p(7, -2, 9), &p(7, -2, 9)), 0);
}

#[test]
fn catmull_arc_length_is_deterministic_and_near_segment_length() {
    // A straight chain: the sampled arc of the middle segment spans the
    // interior 1%..98%, so it is a bit below the full 100 mm.
    let pts = [p(0, 0, 0), p(100, 0, 0), p(200, 0, 0), p(300, 0, 0)];
    let d1 = distance_catmull(&pts);
    let d2 = distance_catmull(&pts);
    assert_eq!(d1, d2);
    assert!(d1 > 90 && d1 <= 100, "sampled length was {}", d1);
}

#[test]
fn duration_of_two_points_at_speed_200() {
    // 2000 mm at 200 mm/s is exactly 10 seconds.
    let pts = [p(0, 0, 0), p(2000, 0, 0)];
    assert_eq!(calculate_duration(&pts, 200), Ok(10_000));
    // 100 mm at 200 mm/s is half a second.
    let pts = [p(0, 0, 0), p(100, 0, 0)];
    assert_eq!(calculate_duration(&pts, 200), Ok(500));
}

#[test]
fn duration_clamps_to_minimum_floor() {
    // 1 mm at 200 mm/s would be 5 ms; the floor is 10 ms.
    let pts = [p(0, 0, 0), p(1, 0, 0)];
    assert_eq!(calculate_duration(&pts, 200), Ok(10));
    // A zero-distance pair also floors at 10 ms.
    let pts = [p(5, 5, 5), p(5, 5, 5)];
    assert_eq!(calculate_duration(&pts, 200), Ok(10));
}

#[test]
fn duration_is_monotone_in_speed_and_distance() {
    let near = [p(0, 0, 0), p(500, 0, 0)];
    let far = [p(0, 0, 0), p(900, 0, 0)];
    let d_near_fast = calculate_duration(&near, 400).unwrap();
    let d_near_slow = calculate_duration(&near, 100).unwrap();
    let d_far_slow = calculate_duration(&far, 100).unwrap();
    assert!(d_near_fast <= d_near_slow);
    assert!(d_near_slow <= d_far_slow);
}

#[test]
fn duration_rejects_unsupported_point_counts() {
    let one = [p(0, 0, 0)];
    assert_eq!(
        calculate_duration(&one, 200),
        Err(ToolpathError::SinglePointDuration)
    );
    let three = [p(0, 0, 0), p(1, 0, 0), p(2, 0, 0)];
    assert_eq!(
        calculate_duration(&three, 200),
        Err(ToolpathError::UnsupportedPointCount)
    );
    let none: [BlenderPoint3; 0] = [];
    assert_eq!(
        calculate_duration(&none, 200),
        Err(ToolpathError::UnsupportedPointCount)
    );
}

#[test]
fn preview_vertices_for_line_and_spline() {
    let line = [p(0, 0, 0), p(10, 20, 30)];
    let verts = vertex_from_spline(1, &line);
    assert_eq!(verts, vec![(0, 0, 0), (10, 20, 30)]);

    let chain = [p(0, 0, 0), p(100, 0, 0), p(200, 0, 0), p(300, 0, 0)];
    let samples = vertex_from_spline(2, &chain);
    assert_eq!(samples.len(), 98);
    // The first sample is the 1% interpolant, just past the segment start.
    assert_eq!(samples[0], (101, 0, 0));

    let unknown = vertex_from_spline(7, &line);
    assert!(unknown.is_empty());
}

#[test]
fn work_envelope_accepts_interior_and_rejects_exterior() {
    assert!(is_point_legal(&p(0, 0, 100)));
    assert!(is_point_legal(&p(100, 100, 1)));
    // Outside the 200 mm radius.
    assert!(!is_point_legal(&p(300, 0, 100)));
    // On or below the lower cylinder end.
    assert!(!is_point_legal(&p(0, 0, 0)));
    // On or above the upper cylinder end.
    assert!(!is_point_legal(&p(0, 0, 200)));
}
