use vortex::color_utils::HslColor;
use vortex::delta_utils::{distance_3d, sort_particles};
use vortex::export_types::{
    ActionGroups, LightAnimationType, MotionInterpolationType, MotionReferenceFrame,
};
use vortex::geometry::{BlenderPoint3, BlenderPoint4};
use vortex::import_types::{
    BlenderData, BlenderNURBS, BlenderParticle, BlenderParticles, BlenderPoly, RgbaColor,
};
use vortex::sequencer::{
    add_starting_move, generate_delta_toolpath, generate_gradient_fades, generate_viewer_data,
    move_between,
};

fn p3(x: i64, y: i64, z: i64) -> BlenderPoint3 {
    BlenderPoint3 { x, y, z }
}

fn p4(x: i64, y: i64, z: i64) -> BlenderPoint4 {
    BlenderPoint4 { x, y, z, w: 0 }
}

fn white() -> HslColor {
    HslColor::gray(100_000)
}

fn red() -> HslColor {
    HslColor::new(0, 100_000, 50_000, 5_000_000, 0, 50_000)
}

fn cyan() -> HslColor {
    HslColor::new(180_000, 100_000, 50_000, -5_000_000, 0, 50_000)
}

fn poly(points: Vec<BlenderPoint4>, color: Vec<HslColor>, cyclic: bool) -> BlenderPoly {
    BlenderPoly {
        curve_length: 0,
        points,
        cyclic,
        uv_path: String::new(),
        color,
    }
}

fn particle_at(prev: BlenderPoint3, loc: BlenderPoint3) -> BlenderParticle {
    BlenderParticle {
        location: loc,
        prev_location: prev,
        velocity: p3(0, 0, 0),
        prev_velocity: p3(0, 0, 0),
        rotation: p4(0, 0, 0),
        prev_rotation: p4(0, 0, 0),
    }
}

#[test]
fn end_to_end_two_point_polyline() {
    // A 2-point polyline from the origin, a flat white 2-stop gradient:
    // one 500 ms transit, one 500 ms line (100 mm at 200 mm/s), and one
    // fade spanning exactly the accumulated line-motion time.
    let input = vec![BlenderData::PolySpline(poly(
        vec![p4(0, 0, 0), p4(100, 0, 0)],
        vec![white(), white()],
        false,
    ))];
    let events = generate_delta_toolpath(&input);

    assert_eq!(events.delta.len(), 2);
    assert_eq!(events.light.len(), 1);
    assert_eq!(events.run.len(), 0);

    let transit = &events.delta[0];
    assert_eq!(transit.payload.motion_type, MotionInterpolationType::PointTransit);
    assert_eq!(transit.payload.duration, 500);
    assert_eq!(transit.action, "queue_movement");

    let line = &events.delta[1];
    assert_eq!(line.payload.motion_type, MotionInterpolationType::Line);
    assert_eq!(line.payload.duration, 500);
    assert_eq!(line.payload.points, vec![(0, 0, 0), (100, 0, 0)]);

    let fade = &events.light[0];
    assert_eq!(fade.payload.animation_type, LightAnimationType::LinearFade);
    assert_eq!(fade.payload.duration, 500);
    assert_eq!(
        fade.payload.points,
        vec![(0, 0, 1_000_000), (0, 0, 1_000_000)]
    );
    // The fade is tied to the line motion (the first motion of the group),
    // not to the transit.
    assert_eq!(fade.payload.id, line.payload.id);
    assert_eq!(line.payload.id, 2);

    // Global ids: transit 0, line 1, fade 2.
    assert_eq!(transit.id, 0);
    assert_eq!(line.id, 1);
    assert_eq!(fade.id, 2);
}

#[test]
fn gradient_compression_clusters_similar_stops() {
    // Two visually distinct clusters: the walk emits a fade at the color
    // break and flushes at the final index.
    let colors = vec![red(), red(), cyan(), cyan(), cyan()];
    let mut events = ActionGroups::new();
    generate_gradient_fades(&mut events, &colors, 400);

    assert_eq!(events.light.len(), 2);
    let first = &events.light[0].payload;
    let second = &events.light[1].payload;
    // Indices walked: 0 -> 2 -> 4, so durations split 2/4 and 2/4.
    assert_eq!(first.duration, 200);
    assert_eq!(second.duration, 200);
    let led_red = (0, 1_000_000, 500_000);
    let led_cyan = (500_000, 1_000_000, 500_000);
    // Order-preserving and conservative: the fades chain through the
    // gradient and the last one ends at the final color.
    assert_eq!(first.points, vec![led_red, led_cyan]);
    assert_eq!(second.points, vec![led_cyan, led_cyan]);
}

#[test]
fn gradient_compression_absorbs_a_gentle_gradient_into_one_fade() {
    // Five near-identical stops: only the boundary flush emits.
    let colors = vec![red(); 5];
    let mut events = ActionGroups::new();
    generate_gradient_fades(&mut events, &colors, 400);
    assert_eq!(events.light.len(), 1);
    assert_eq!(events.light[0].payload.duration, 400);
}

#[test]
fn short_gradients_fade_at_every_stop() {
    // With fewer than 3 steps the cluster is too small to be meaningful:
    // every stop past the first emits.
    let colors = vec![red(), red(), red()];
    let mut events = ActionGroups::new();
    generate_gradient_fades(&mut events, &colors, 100);
    assert_eq!(events.light.len(), 2);
    assert_eq!(events.light[0].payload.duration, 50);
    assert_eq!(events.light[1].payload.duration, 50);
}

#[test]
fn transit_from_home_is_a_point_transit() {
    let m = move_between(p3(0, 0, 0), p3(100, 0, 100), 200).unwrap();
    assert_eq!(m.motion_type, MotionInterpolationType::PointTransit);
    assert_eq!(m.reference, MotionReferenceFrame::Absolute);
    assert_eq!(m.duration, 500);
    assert_eq!(m.points, vec![(100, 0, 100)]);
}

#[test]
fn transit_elsewhere_is_a_shaped_bezier_on_the_line() {
    let m = move_between(p3(0, 0, 100), p3(100, 0, 100), 200).unwrap();
    assert_eq!(m.motion_type, MotionInterpolationType::BezierCubic);
    // 100 mm at 200 mm/s.
    assert_eq!(m.duration, 500);
    // Both control points lie on the A-B line, 1% off each endpoint.
    assert_eq!(
        m.points,
        vec![(0, 0, 100), (1, 0, 100), (99, 0, 100), (100, 0, 100)]
    );
}

#[test]
fn no_transit_between_equal_non_home_positions() {
    assert!(move_between(p3(50, 50, 50), p3(50, 50, 50), 200).is_none());
    let mut events = ActionGroups::new();
    add_starting_move(&mut events, p3(50, 50, 50), p3(50, 50, 50));
    assert_eq!(events.delta.len(), 0);
}

#[test]
fn particle_trails_get_transit_delay_line_and_light() {
    let set = BlenderParticles {
        particles: vec![particle_at(p3(0, 0, 100), p3(100, 0, 100))],
        color_rgba: RgbaColor { red: 1_000_000, green: 0, blue: 0, alpha: 1_000_000 },
        color: vec![red(), cyan()],
    };
    let input = vec![BlenderData::Particles(set)];
    let events = generate_delta_toolpath(&input);

    // Transit to the trail start, the fixed delay, and the trail line.
    assert_eq!(events.delta.len(), 3);
    assert_eq!(events.delta[0].payload.motion_type, MotionInterpolationType::PointTransit);
    let delay = &events.delta[1].payload;
    assert_eq!(delay.motion_type, MotionInterpolationType::PointTransit);
    assert_eq!(delay.reference, MotionReferenceFrame::Relative);
    assert_eq!(delay.duration, 10);
    assert_eq!(delay.points, vec![(0, 0, 0)]);
    let line = &events.delta[2].payload;
    assert_eq!(line.motion_type, MotionInterpolationType::Line);
    assert_eq!(line.duration, 500);

    // One constant-on light spanning the trail, tied to the trail line.
    assert_eq!(events.light.len(), 1);
    let light = &events.light[0].payload;
    assert_eq!(light.animation_type, LightAnimationType::ConstantOn);
    assert_eq!(light.duration, 500);
    assert_eq!(light.id, line.id);
    assert_eq!(light.points.len(), 2);
}

#[test]
fn particle_route_visits_every_particle_exactly_once() {
    let mut particles = vec![
        particle_at(p3(0, 0, 0), p3(30, 0, 0)),
        particle_at(p3(0, 0, 0), p3(0, 0, 0)),
        particle_at(p3(0, 0, 0), p3(20, 0, 0)),
        particle_at(p3(0, 0, 0), p3(10, 0, 0)),
    ];
    let sorted = sort_particles(&mut particles);
    assert!(particles.is_empty());
    assert_eq!(sorted.len(), 4);
    let mut xs: Vec<i64> = sorted.iter().map(|q| q.location.x).collect();
    xs.sort_unstable();
    assert_eq!(xs, vec![0, 10, 20, 30]);

    // The greedy chain: each entry is nearest among the still-unchosen
    // particles, that is, among all later entries of the result.
    for k in 1..sorted.len() {
        let step = distance_3d(&sorted[k - 1].location, &sorted[k].location);
        for j in k..sorted.len() {
            assert!(step <= distance_3d(&sorted[k - 1].location, &sorted[j].location));
        }
    }
}

#[test]
fn particle_route_is_no_longer_than_the_given_ordering() {
    // For this set, every possible random start yields a greedy route at
    // most as long as walking the particles in their given order.
    let given = vec![
        particle_at(p3(0, 0, 0), p3(30, 0, 0)),
        particle_at(p3(0, 0, 0), p3(0, 0, 0)),
        particle_at(p3(0, 0, 0), p3(20, 0, 0)),
        particle_at(p3(0, 0, 0), p3(10, 0, 0)),
    ];
    let route_length = |ps: &Vec<BlenderParticle>| -> u64 {
        ps.windows(2)
            .map(|w| distance_3d(&w[0].location, &w[1].location))
            .sum()
    };
    let given_length = route_length(&given);
    assert_eq!(given_length, 60);
    let mut input = given.clone();
    let sorted = sort_particles(&mut input);
    assert!(route_length(&sorted) <= given_length);
}

#[test]
fn single_particle_route_is_that_particle() {
    let mut particles = vec![particle_at(p3(0, 0, 0), p3(5, 6, 7))];
    let sorted = sort_particles(&mut particles);
    assert!(particles.is_empty());
    assert_eq!(sorted.len(), 1);
    assert_eq!(sorted[0].location, p3(5, 6, 7));
}

#[test]
fn cyclic_polyline_closes_onto_its_first_point() {
    let mut s = poly(vec![p4(0, 0, 0), p4(10, 0, 0), p4(10, 10, 0)], vec![white(); 2], true);
    s.close_loop();
    assert_eq!(s.points.len(), 4);
    assert_eq!(s.points[3], p4(0, 0, 0));

    let mut open = poly(vec![p4(0, 0, 0), p4(10, 0, 0)], vec![white(); 2], false);
    open.close_loop();
    assert_eq!(open.points.len(), 2);
}

#[test]
fn cyclic_spline_closes_with_three_seam_points() {
    let mut s = BlenderNURBS {
        curve_length: 0,
        points: vec![p4(0, 0, 0), p4(10, 0, 0), p4(20, 0, 0), p4(30, 0, 0)],
        cyclic: true,
        uv_path: String::new(),
        color: vec![white(); 2],
    };
    s.close_loop();
    assert_eq!(s.points.len(), 7);
    assert_eq!(s.points[4], p4(0, 0, 0));
    assert_eq!(s.points[5], p4(10, 0, 0));
    assert_eq!(s.points[6], p4(20, 0, 0));
}

#[test]
fn closing_a_particle_set_is_rejected() {
    let mut data = BlenderData::Particles(BlenderParticles {
        particles: vec![],
        color_rgba: RgbaColor { red: 0, green: 0, blue: 0, alpha: 0 },
        color: vec![white(); 2],
    });
    assert!(data.close_loop().is_err());
    let mut ok = BlenderData::PolySpline(poly(vec![p4(1, 2, 3)], vec![white(); 2], false));
    assert!(ok.close_loop().is_ok());
}

#[test]
fn scaling_and_offsetting_points() {
    let mut q = p3(10, -20, 30);
    q.scale(3);
    assert_eq!(q, p3(30, -60, 90));
    q.offset(1, 2, -3);
    assert_eq!(q, p3(31, -58, 87));

    let mut q4 = BlenderPoint4 { x: 5, y: 6, z: 7, w: 9 };
    q4.scale(2);
    assert_eq!(q4, BlenderPoint4 { x: 10, y: 12, z: 14, w: 9 });
    q4.offset(-1, -2, -4);
    assert_eq!(q4, BlenderPoint4 { x: 9, y: 10, z: 10, w: 9 });
    assert_eq!(q4.into_bp3(), p3(9, 10, 10));
}

#[test]
fn scaling_a_polyline_scales_its_declared_length() {
    let mut s = poly(vec![p4(1, 2, 3), p4(4, 5, 6)], vec![white(); 2], false);
    s.curve_length = 100;
    s.scale_points(10);
    assert_eq!(s.curve_length, 1000);
    assert_eq!(s.points[0], p4(10, 20, 30));
    assert_eq!(s.points[1], p4(40, 50, 60));
    s.offset_points(0, 0, 5);
    assert_eq!(s.points[0], p4(10, 20, 35));
}

#[test]
fn viewer_preview_counts_follow_the_curve_kinds() {
    let input = vec![
        BlenderData::PolySpline(poly(
            vec![p4(0, 0, 0), p4(10, 0, 0), p4(20, 0, 0)],
            vec![white(), red()],
            false,
        )),
        BlenderData::NURBSSpline(BlenderNURBS {
            curve_length: 0,
            points: vec![p4(0, 0, 0)],
            cyclic: false,
            uv_path: String::new(),
            color: vec![white(); 2],
        }),
    ];
    let (points, colors) = generate_viewer_data(&input);
    // Two windows of the polyline contribute two vertices each, plus the
    // placeholder pair; the colors are the polyline's gradient plus the
    // placeholder gray pair.
    assert_eq!(points.len(), 6);
    assert_eq!(colors.len(), 4);
    assert_eq!(points[0], (0, 0, 0));
    assert_eq!(points[1], (10, 0, 0));
    assert_eq!(points[2], (10, 0, 0));
    assert_eq!(points[3], (20, 0, 0));
    // The placeholder segment is degenerate at the origin, and the
    // placeholder colors are the mid-gray pair after the real gradient.
    assert_eq!(points[4], (0, 0, 0));
    assert_eq!(points[5], (0, 0, 0));
    assert_eq!(colors[0], white());
    assert_eq!(colors[1], red());
    assert_eq!(colors[2], HslColor::gray(50_000));
    assert_eq!(colors[3], HslColor::gray(50_000));
}

#[test]
fn multi_curve_ids_stay_globally_unique() {
    let input = vec![
        BlenderData::PolySpline(poly(
            vec![p4(0, 0, 0), p4(100, 0, 0)],
            vec![white(), white()],
            false,
        )),
        BlenderData::PolySpline(poly(
            vec![p4(100, 0, 100), p4(200, 0, 100)],
            vec![red(), cyan()],
            false,
        )),
    ];
    let events = generate_delta_toolpath(&input);
    let mut ids: Vec<u32> = Vec::new();
    ids.extend(events.delta.iter().map(|a| a.id));
    ids.extend(events.light.iter().map(|a| a.id));
    let n = ids.len();
    ids.sort_unstable();
    ids.dedup();
    assert_eq!(ids.len(), n);
    assert_eq!(events.get_next_global_id() as usize, n);
}

#[test]
fn preparation_movement_is_a_long_homing_transit() {
    let prep = vortex::sequencer::generate_preparation_movement((10, 20, 30));
    assert_eq!(prep.id, 1);
    assert_eq!(prep.action, "queue_movement");
    assert_eq!(prep.payload.id, 1);
    assert_eq!(prep.payload.motion_type, MotionInterpolationType::PointTransit);
    assert_eq!(prep.payload.reference, MotionReferenceFrame::Absolute);
    assert_eq!(prep.payload.duration, 2500);
    assert_eq!(prep.payload.points, vec![(10, 20, 30)]);
}

#[test]
fn curve_transforms_dispatch_over_every_kind() {
    let mut data = BlenderData::PolySpline(poly(
        vec![p4(1, 2, 3), p4(4, 5, 6)],
        vec![white(); 2],
        false,
    ));
    data.scale_points(2);
    data.offset_points(10, 0, 0);
    match &data {
        BlenderData::PolySpline(p) => {
            assert_eq!(p.points[0], p4(12, 4, 6));
            assert_eq!(p.points[1], p4(18, 10, 12));
        }
        _ => panic!("kind changed"),
    }

    let mut set = BlenderData::Particles(BlenderParticles {
        particles: vec![particle_at(p3(1, 0, 0), p3(2, 0, 0))],
        color_rgba: RgbaColor { red: 0, green: 0, blue: 0, alpha: 0 },
        color: vec![white(); 2],
    });
    set.scale_points(5);
    set.offset_points(0, 0, 7);
    match &set {
        BlenderData::Particles(ps) => {
            assert_eq!(ps.particles[0].prev_location, p3(5, 0, 7));
            assert_eq!(ps.particles[0].location, p3(10, 0, 7));
        }
        _ => panic!("kind changed"),
    }
}

#[test]
fn end_to_end_catmull_spline() {
    // Four collinear control points 100 mm apart: the single window's
    // sampled arc covers the interior 1%..98% of the middle segment, one
    // millimeter per step, so 97 mm at 200 mm/s is 485 ms.
    let input = vec![BlenderData::NURBSSpline(BlenderNURBS {
        curve_length: 300,
        points: vec![
            p4(0, 0, 100),
            p4(100, 0, 100),
            p4(200, 0, 100),
            p4(300, 0, 100),
        ],
        cyclic: false,
        uv_path: String::new(),
        color: vec![white(), white()],
    })];
    let events = generate_delta_toolpath(&input);

    assert_eq!(events.delta.len(), 2);
    let transit = &events.delta[0].payload;
    assert_eq!(transit.motion_type, MotionInterpolationType::PointTransit);
    assert_eq!(transit.duration, 500);
    assert_eq!(transit.points, vec![(0, 0, 100)]);

    let segment = &events.delta[1].payload;
    assert_eq!(segment.motion_type, MotionInterpolationType::CatmullSpline);
    assert_eq!(segment.duration, 485);
    assert_eq!(segment.points.len(), 4);

    assert_eq!(events.light.len(), 1);
    let fade = &events.light[0].payload;
    assert_eq!(fade.animation_type, LightAnimationType::LinearFade);
    assert_eq!(fade.duration, 485);
    assert_eq!(fade.id, segment.id);
}
