//! The toolpath generator: walks each imported curve, emits a transit move
//! from the last known tool position, one motion per sliding window of the
//! curve's kind, and the compressed lighting fades for its color gradient,
//! all through one `ActionGroups` accumulator per output unit.

use vstd::prelude::*;
use vstd::string::StringExecFns;

use crate::color_utils::{delta_led_from_hsl, distance_hsl, spec_delta_led, HslColor};
use crate::delta_utils::{
    calculate_duration, dist_sq, duration_spec, interpolate_line_point, line_num,
    vertex_from_spline,
};
use crate::export_types::{
    ActionGroups, Fade, LightAnimationType, Motion, MotionInterpolationType, MotionReferenceFrame,
};
use crate::geometry::BlenderPoint3;
use crate::import_types::{BlenderData, BlenderNURBS, BlenderParticles, BlenderPoly};
use crate::numeric::sqrt_floor;

verus! {

/// Effector travel speed in mm/s.
pub const MOVEMENT_SPEED: u32 = 200;

/// Perceptual distance (in projection milli-units) above which two gradient
/// stops are visually distinct; an empirically chosen constant.
pub const CLUSTER_THRESHOLD: u64 = 300_000;

/// Fixed inter-particle delay, modeled as a zero-distance relative motion.
pub const POINT_DELAY_MS: u32 = 10;

/// How far (in percent of the transit line) the Bezier control points sit
/// from the transit endpoints; an empirically chosen shaping constant.
pub const TRANSIT_SHAPING_PCT: u32 = 1;

/// State transition of queueing one motion with the given kind, frame,
/// duration and waypoints: the sequencer bookkeeping advances exactly as
/// `add_delta_action` prescribes.
pub open spec fn is_motion_emit(
    g0: ActionGroups,
    g1: ActionGroups,
    mtype: MotionInterpolationType,
    mref: MotionReferenceFrame,
    dur: int,
    pts: Seq<(i64, i64, i64)>,
) -> bool {
    &&& g1.delta@.len() == g0.delta@.len() + 1
    &&& g1.delta@.drop_last() == g0.delta@
    &&& g1.delta@.last().id == g0.global_id
    &&& g1.delta@.last().action@ == "queue_movement"@
    &&& g1.delta@.last().payload.id == g0.delta@.len() + 1
    &&& g1.delta@.last().payload.motion_type == mtype
    &&& g1.delta@.last().payload.reference == mref
    &&& g1.delta@.last().payload.duration == dur
    &&& g1.delta@.last().payload.points@ == pts
    &&& g1.light@ == g0.light@
    &&& g1.run@ == g0.run@
    &&& g1.global_id == g0.global_id + 1
    &&& g1.move_time == crate::export_types::spec_accumulate(g0.move_time as int, mtype, dur)
    &&& g1.move_barrier_id == (if g0.move_barrier_reset {
        g0.delta@.len() as int + 1
    } else {
        g0.move_barrier_id as int
    })
    &&& g1.move_barrier_reset == false
}

/// State transition of queueing one light command with the given animation,
/// duration and color points: the payload is stamped with the current
/// barrier id and the bookkeeping advances as `add_light_action` prescribes.
pub open spec fn is_fade_emit(
    g0: ActionGroups,
    g1: ActionGroups,
    anim: LightAnimationType,
    dur: int,
    pts: Seq<(u32, u32, u32)>,
) -> bool {
    &&& g1.light@.len() == g0.light@.len() + 1
    &&& g1.light@.drop_last() == g0.light@
    &&& g1.light@.last().id == g0.global_id
    &&& g1.light@.last().action@ == "queue_light"@
    &&& g1.light@.last().comment@ == Seq::<char>::empty()
    &&& g1.light@.last().payload.id == g0.move_barrier_id
    &&& g1.light@.last().payload.animation_type == anim
    &&& g1.light@.last().payload.duration == dur
    &&& g1.light@.last().payload.points@ == pts
    &&& g1.delta@ == g0.delta@
    &&& g1.run@ == g0.run@
    &&& g1.global_id == g0.global_id + 1
    &&& g1.move_time == g0.move_time
    &&& g1.move_barrier_id == g0.move_barrier_id
    &&& g1.move_barrier_reset == g0.move_barrier_reset
}

/// The `(x, y, z)` waypoint triple of a point.
pub open spec fn spec_coords(p: BlenderPoint3) -> (i64, i64, i64) {
    (p.x, p.y, p.z)
}

/// The waypoint triple of the linear interpolant `k` percent from `a`
/// towards `b`.
pub open spec fn spec_line_point(a: BlenderPoint3, b: BlenderPoint3, k: int) -> (i64, i64, i64) {
    (
        (line_num(a.x as int, b.x as int, k) / 100) as i64,
        (line_num(a.y as int, b.y as int, k) / 100) as i64,
        (line_num(a.z as int, b.z as int, k) / 100) as i64,
    )
}

/// The four waypoints of a shaped transit from `a` to `b`: a cubic Bezier
/// whose control points lie on the A-B line, just off each endpoint, giving
/// an ease-in/ease-out velocity profile without true curvature.
pub open spec fn spec_transit_points(a: BlenderPoint3, b: BlenderPoint3) -> Seq<(i64, i64, i64)> {
    seq![
        spec_coords(a),
        spec_line_point(a, b, TRANSIT_SHAPING_PCT as int),
        spec_line_point(b, a, TRANSIT_SHAPING_PCT as int),
        spec_coords(b),
    ]
}

/// Generate the move between `a` and `b`: a raw point-transit when
/// departing the device's home position, a shaped cubic Bezier along the
/// A-B line (with duration from the straight-line distance at `speed`)
/// between distinct positions elsewhere, and nothing when the tool is
/// already at `b`.
pub fn move_between(a: BlenderPoint3, b: BlenderPoint3, speed: u32) -> (r: Option<Motion>)
    requires
        a.in_bounds(),
        b.in_bounds(),
        1 <= speed,
    ensures
        (a == b && !a.spec_is_home()) <==> r is None,
        a.spec_is_home() ==> (r matches Some(m) && m.id == 0 && m.motion_type
            == MotionInterpolationType::PointTransit && m.reference
            == MotionReferenceFrame::Absolute && m.duration == 500 && m.points@ == seq![
            spec_coords(b),
        ]),
        a != b && !a.spec_is_home() ==> (r matches Some(m) && m.id == 0 && m.motion_type
            == MotionInterpolationType::BezierCubic && m.reference
            == MotionReferenceFrame::Absolute && m.duration == duration_spec(
            sqrt_floor(dist_sq(a, b)),
            speed as int,
        ) && m.points@ == spec_transit_points(a, b)),
{
    if a.is_home() {
        // Transit straight to B instead of requiring a start from home.
        let points: Vec<(i64, i64, i64)> = vec![(b.x, b.y, b.z)];
        proof {
            assert(points@ =~= seq![spec_coords(b)]);
        }
        Some(
            Motion {
                id: 0,
                reference: MotionReferenceFrame::Absolute,
                motion_type: MotionInterpolationType::PointTransit,
                duration: 500,
                points,
            },
        )
    } else if a == b {
        None
    } else {
        let pair: Vec<BlenderPoint3> = vec![a, b];
        proof {
            assert(pair@ =~= seq![a, b]);
        }
        let duration = match calculate_duration(pair.as_slice(), speed) {
            Ok(d) => d,
            Err(_) => {
                assert(false);
                10
            },
        };
        // Control points ON the line between a and b, near each endpoint:
        // the ease-in-out profile, still representable as a 4-point Bezier.
        let control_a = match interpolate_line_point(&a, &b, TRANSIT_SHAPING_PCT) {
            Ok(p) => p,
            Err(_) => {
                assert(false);
                a
            },
        };
        let control_b = match interpolate_line_point(&b, &a, TRANSIT_SHAPING_PCT) {
            Ok(p) => p,
            Err(_) => {
                assert(false);
                b
            },
        };
        let points: Vec<(i64, i64, i64)> = vec![
            (a.x, a.y, a.z),
            (control_a.x, control_a.y, control_a.z),
            (control_b.x, control_b.y, control_b.z),
            (b.x, b.y, b.z),
        ];
        proof {
            assert(points@ =~= spec_transit_points(a, b));
        }
        Some(
            Motion {
                id: 0,
                reference: MotionReferenceFrame::Absolute,
                motion_type: MotionInterpolationType::BezierCubic,
                duration,
                points,
            },
        )
    }
}

/// Queue the transit move from `a` to `b`, if one is needed.
pub fn add_starting_move(events: &mut ActionGroups, a: BlenderPoint3, b: BlenderPoint3)
    requires
        old(events).wf(),
        old(events).global_id < u32::MAX,
        a.in_bounds(),
        b.in_bounds(),
    ensures
        final(events).wf(),
        a == b && !a.spec_is_home() ==> *final(events) == *old(events),
        a.spec_is_home() ==> is_motion_emit(
            *old(events),
            *final(events),
            MotionInterpolationType::PointTransit,
            MotionReferenceFrame::Absolute,
            500,
            seq![spec_coords(b)],
        ),
        a != b && !a.spec_is_home() ==> is_motion_emit(
            *old(events),
            *final(events),
            MotionInterpolationType::BezierCubic,
            MotionReferenceFrame::Absolute,
            duration_spec(sqrt_floor(dist_sq(a, b)), MOVEMENT_SPEED as int),
            spec_transit_points(a, b),
        ),
{
    if let Some(transit) = move_between(a, b, MOVEMENT_SPEED) {
        events.add_delta_action(transit);
    }
}

/// Queue a fixed delay, abusing a relative movement of zero distance.
pub fn add_delay(events: &mut ActionGroups, time: u32)
    requires
        old(events).wf(),
        old(events).global_id < u32::MAX,
    ensures
        final(events).wf(),
        is_motion_emit(
            *old(events),
            *final(events),
            MotionInterpolationType::PointTransit,
            MotionReferenceFrame::Relative,
            time as int,
            seq![(0i64, 0i64, 0i64)],
        ),
{
    let points: Vec<(i64, i64, i64)> = vec![(0, 0, 0)];
    proof {
        assert(points@ =~= seq![(0i64, 0i64, 0i64)]);
    }
    events.add_delta_action(
        Motion {
            motion_type: MotionInterpolationType::PointTransit,
            reference: MotionReferenceFrame::Relative,
            id: 0,
            duration: time,
            points,
        },
    );
}

/// Whether the walk emits a fade at index `i`, comparing the cluster-start
/// color `cs` against the color `cn` at `i`: the colors are visually
/// distinct, or the gradient is too short to be worth clustering, or the
/// walk has reached the final index (the boundary flush).  The initial
/// index never emits: a fade needs a preceding cluster.
pub open spec fn spec_emit_between(cs: HslColor, cn: HslColor, steps: int, i: int) -> bool {
    i != 0 && (sqrt_floor(crate::color_utils::color_dist_sq(cs, cn)) > CLUSTER_THRESHOLD as int
        || steps < 3 || i == steps)
}

/// The indices at which the gradient walk emits fades, scanning from index
/// `i` with the cluster anchored at index `start`.
pub open spec fn spec_fade_cuts(colors: Seq<HslColor>, steps: int, start: int, i: int) -> Seq<int>
    decreases colors.len() - i,
{
    if i >= colors.len() || i < 0 {
        Seq::empty()
    } else if spec_emit_between(colors[start], colors[i], steps, i) {
        seq![i] + spec_fade_cuts(colors, steps, i, i + 1)
    } else {
        spec_fade_cuts(colors, steps, start, i + 1)
    }
}

/// The emission indices of a full gradient walk.
pub open spec fn spec_cuts(colors: Seq<HslColor>) -> Seq<int> {
    spec_fade_cuts(colors, colors.len() - 1, 0, 0)
}

/// Where the `j`-th emitted fade starts: at the previous emission index, or
/// at the head of the gradient for the first fade.
pub open spec fn spec_cut_start(cuts: Seq<int>, j: int) -> int {
    if j == 0 {
        0
    } else {
        cuts[j - 1]
    }
}

/// Duration of a fade spanning gradient indices `from` to `to`: that many
/// steps of the per-step share of the group's movement-time budget.
pub open spec fn spec_fade_duration(from: int, to: int, budget: int, steps: int) -> int {
    (to - from) * budget / steps
}

/// One step of the gradient walk, mirroring one loop iteration of the
/// compression: compare the color at `i` against the cluster start; when
/// the pair is worth a fade, emit it over the interval's share of the
/// movement-time `budget` and anchor the next cluster at `i`, otherwise
/// absorb the color into the current cluster.
fn generate_visually_distinct_fade(
    events: &mut ActionGroups,
    i: usize,
    steps: usize,
    budget: u32,
    start_colour: (usize, HslColor),
    next_colour: (usize, HslColor),
) -> (r: (usize, HslColor))
    requires
        old(events).wf(),
        old(events).global_id < u32::MAX,
        start_colour.0 <= i <= steps,
        1 <= steps <= 0xFFFF_FFFF,
        next_colour.0 == i,
        start_colour.1.wf(),
        next_colour.1.wf(),
    ensures
        final(events).wf(),
        spec_emit_between(start_colour.1, next_colour.1, steps as int, i as int) ==> is_fade_emit(
            *old(events),
            *final(events),
            LightAnimationType::LinearFade,
            spec_fade_duration(start_colour.0 as int, i as int, budget as int, steps as int),
            seq![spec_delta_led(start_colour.1), spec_delta_led(next_colour.1)],
        ) && r == next_colour,
        !spec_emit_between(start_colour.1, next_colour.1, steps as int, i as int) ==> *final(events)
            == *old(events) && r == start_colour,
{
    let dist = distance_hsl(&start_colour.1, &next_colour.1);
    if i != 0 && (dist > CLUSTER_THRESHOLD || steps < 3 || i == steps) {
        // The duration of the interval between the selected points.
        let step_difference = i - start_colour.0;
        assert((step_difference as int) * (budget as int) <= 0xFFFF_FFFF * 0xFFFF_FFFF)
            by (nonlinear_arith)
            requires
                0 <= step_difference <= 0xFFFF_FFFF,
                0 <= budget <= 0xFFFF_FFFF,
        ;
        let fade_wide: u64 = (step_difference as u64) * (budget as u64) / (steps as u64);
        proof {
            vstd::arithmetic::mul::lemma_mul_inequality(
                step_difference as int,
                steps as int,
                budget as int,
            );
            vstd::arithmetic::div_mod::lemma_div_is_ordered(
                (step_difference as int) * (budget as int),
                (steps as int) * (budget as int),
                steps as int,
            );
            vstd::arithmetic::div_mod::lemma_div_multiples_vanish(budget as int, steps as int);
        }
        let fade_duration: u32 = fade_wide as u32;

        // Format the cluster edges into the unit-interval payload triples.
        let cluster_start = delta_led_from_hsl(&start_colour.1);
        let cluster_end = delta_led_from_hsl(&next_colour.1);
        let points: Vec<(u32, u32, u32)> = vec![cluster_start, cluster_end];
        proof {
            assert(points@ =~= seq![
                spec_delta_led(start_colour.1),
                spec_delta_led(next_colour.1),
            ]);
        }
        events.add_light_action(
            Fade {
                animation_type: LightAnimationType::LinearFade,
                id: 1,
                duration: fade_duration,
                points,
            },
        );
        // The end of this fade anchors the next comparison.
        next_colour
    } else {
        start_colour
    }
}

/// The barrier-independent part of the light entry a gradient walk appends
/// for its `j`-th cut: queued under consecutive global ids, fading from the
/// previous cut (or the gradient head) to this cut over the interval's
/// share of the budget.
pub open spec fn fade_entry_core(
    e: crate::export_types::LightAction,
    gid_base: int,
    colors: Seq<HslColor>,
    cuts: Seq<int>,
    j: int,
    budget: int,
    steps: int,
) -> bool {
    &&& e.id == gid_base + j
    &&& e.action@ == "queue_light"@
    &&& e.comment@ == Seq::<char>::empty()
    &&& e.payload.animation_type == LightAnimationType::LinearFade
    &&& e.payload.duration == spec_fade_duration(spec_cut_start(cuts, j), cuts[j], budget, steps)
    &&& e.payload.points@ == seq![
        spec_delta_led(colors[spec_cut_start(cuts, j)]),
        spec_delta_led(colors[cuts[j]]),
    ]
}

/// The full light entry of the `j`-th cut, stamped with the group's
/// barrier.
pub open spec fn fade_entry_matches(
    e: crate::export_types::LightAction,
    gid_base: int,
    barrier: int,
    colors: Seq<HslColor>,
    cuts: Seq<int>,
    j: int,
    budget: int,
    steps: int,
) -> bool {
    &&& fade_entry_core(e, gid_base, colors, cuts, j, budget, steps)
    &&& e.payload.id == barrier
}

/// `g1` is `g0` with exactly the fades of one full gradient walk over
/// `colors` appended, one per emission index, in emission order; nothing
/// else of the sequencer state moves.
pub open spec fn is_fades_appended(
    g0: ActionGroups,
    g1: ActionGroups,
    colors: Seq<HslColor>,
    budget: int,
) -> bool {
    let cuts = spec_cuts(colors);
    let steps = colors.len() - 1;
    &&& g1.light@.len() == g0.light@.len() + cuts.len()
    &&& g1.light@.subrange(0, g0.light@.len() as int) == g0.light@
    &&& (forall|j: int|
        0 <= j < cuts.len() ==> #[trigger] fade_entry_matches(
            g1.light@[g0.light@.len() + j],
            g0.global_id as int,
            g0.move_barrier_id as int,
            colors,
            cuts,
            j,
            budget,
            steps,
        ))
    &&& g1.delta@ == g0.delta@
    &&& g1.run@ == g0.run@
    &&& g1.global_id == g0.global_id + cuts.len()
    &&& g1.move_time == g0.move_time
    &&& g1.move_barrier_id == g0.move_barrier_id
    &&& g1.move_barrier_reset == g0.move_barrier_reset
}

/// Run the gradient walk over a curve's color sequence and queue one linear
/// fade per visually distinct cluster, spending the group's accumulated
/// movement-time `budget` proportionally to the cluster widths.  This is
/// the de-duplication pass: colors too close to their cluster start are
/// absorbed silently, and the final index always flushes.
pub fn generate_gradient_fades(events: &mut ActionGroups, colors: &Vec<HslColor>, budget: u32)
    requires
        old(events).wf(),
        colors@.len() >= 2,
        old(events).global_id + colors@.len() <= 0xFFFF_FFFF,
        forall|i: int| 0 <= i < colors@.len() ==> (#[trigger] colors@[i]).wf(),
    ensures
        final(events).wf(),
        is_fades_appended(*old(events), *final(events), colors@, budget as int),
{
    let ghost g0 = *events;
    let ghost full = spec_cuts(colors@);
    let steps = colors.len() - 1;
    let mut start_colour: (usize, HslColor) = (0, colors[0]);
    let ghost mut count: int = 0;
    proof {
        assert(full.skip(0) =~= full);
    }
    let mut i: usize = 0;
    while i < colors.len()
        invariant
            events.wf(),
            colors@.len() >= 2,
            steps == colors@.len() - 1,
            g0.global_id + colors@.len() <= 0xFFFF_FFFF,
            forall|k: int| 0 <= k < colors@.len() ==> (#[trigger] colors@[k]).wf(),
            0 <= i <= colors@.len(),
            0 <= count <= i,
            start_colour.0 <= i,
            start_colour.0 < colors@.len(),
            start_colour.1 == colors@[start_colour.0 as int],
            start_colour.0 == spec_cut_start(full, count),
            full.skip(count) == spec_fade_cuts(
                colors@,
                steps as int,
                start_colour.0 as int,
                i as int,
            ),
            count <= full.len(),
            events.global_id == g0.global_id + count,
            events.light@.len() == g0.light@.len() + count,
            events.light@.subrange(0, g0.light@.len() as int) == g0.light@,
            forall|j: int|
                0 <= j < count ==> #[trigger] fade_entry_matches(
                    events.light@[g0.light@.len() + j],
                    g0.global_id as int,
                    g0.move_barrier_id as int,
                    colors@,
                    full,
                    j,
                    budget as int,
                    steps as int,
                ),
            events.delta@ == g0.delta@,
            events.run@ == g0.run@,
            events.move_time == g0.move_time,
            events.move_barrier_id == g0.move_barrier_id,
            events.move_barrier_reset == g0.move_barrier_reset,
        decreases colors@.len() - i,
    {
        let next_colour = (i, colors[i]);
        let ghost pre = *events;
        let ghost pre_start = start_colour;
        start_colour = generate_visually_distinct_fade(
            events,
            i,
            steps,
            budget,
            start_colour,
            next_colour,
        );
        proof {
            let emitted = spec_emit_between(
                pre_start.1,
                colors@[i as int],
                steps as int,
                i as int,
            );
            if emitted {
                let rest = spec_fade_cuts(colors@, steps as int, i as int, i as int + 1);
                assert(spec_fade_cuts(colors@, steps as int, pre_start.0 as int, i as int)
                    =~= seq![i as int] + rest);
                assert(full.skip(count)[0] == full[count]);
                assert(full[count] == i as int);
                assert forall|k: int| 0 <= k < full.len() - (count + 1) implies full.skip(
                    count + 1,
                )[k] == #[trigger] rest[k] by {
                    assert(full.skip(count + 1)[k] == full[count + 1 + k]);
                    assert(full.skip(count)[k + 1] == full[count + 1 + k]);
                    assert((seq![i as int] + rest)[k + 1] == rest[k]);
                }
                assert(full.skip(count + 1) =~= rest);
                assert forall|j: int| 0 <= j < pre.light@.len() implies events.light@[j]
                    == #[trigger] pre.light@[j] by {
                    assert(events.light@.drop_last()[j] == events.light@[j]);
                }
                assert(events.light@.subrange(0, g0.light@.len() as int) =~= g0.light@);
                assert(fade_entry_matches(
                    events.light@[g0.light@.len() + count],
                    g0.global_id as int,
                    g0.move_barrier_id as int,
                    colors@,
                    full,
                    count,
                    budget as int,
                    steps as int,
                ));
                count = count + 1;
                assert forall|j: int| 0 <= j < count implies #[trigger] fade_entry_matches(
                    events.light@[g0.light@.len() + j],
                    g0.global_id as int,
                    g0.move_barrier_id as int,
                    colors@,
                    full,
                    j,
                    budget as int,
                    steps as int,
                ) by {
                    if j < count - 1 {
                        assert(events.light@[g0.light@.len() + j] == pre.light@[g0.light@.len()
                            + j]);
                        assert(fade_entry_matches(
                            pre.light@[g0.light@.len() + j],
                            g0.global_id as int,
                            g0.move_barrier_id as int,
                            colors@,
                            full,
                            j,
                            budget as int,
                            steps as int,
                        ));
                    }
                }
            } else {
                assert(spec_fade_cuts(colors@, steps as int, pre_start.0 as int, i as int)
                    == spec_fade_cuts(colors@, steps as int, pre_start.0 as int, i as int + 1));
            }
        }
        i = i + 1;
    }
    proof {
        assert(spec_fade_cuts(colors@, steps as int, start_colour.0 as int, colors@.len() as int)
            =~= Seq::<int>::empty());
        assert(full.skip(count).len() == 0);
        assert(count == full.len());
        assert(events.light@.subrange(0, g0.light@.len() as int) =~= g0.light@);
    }
}

/// Structure of a gradient walk's emission indices, by induction over the
/// walk: every cut lies between the current index and the final one, cuts
/// strictly increase, and as long as the final index is still ahead the
/// walk ends with the boundary flush there.
proof fn lemma_fade_cuts_from(colors: Seq<HslColor>, steps: int, start: int, i: int)
    requires
        steps == colors.len() - 1,
        colors.len() >= 2,
        0 <= i <= colors.len(),
    ensures
        ({
            let cuts = spec_fade_cuts(colors, steps, start, i);
            &&& forall|j: int|
                0 <= j < cuts.len() ==> i <= #[trigger] cuts[j] && 1 <= cuts[j] <= steps
            &&& forall|j1: int, j2: int|
                0 <= j1 < j2 < cuts.len() ==> #[trigger] cuts[j1] < #[trigger] cuts[j2]
            &&& (i <= steps ==> cuts.len() >= 1 && cuts.last() == steps)
            &&& cuts.len() + i <= steps + 1
            &&& (i == 0 ==> cuts.len() <= steps)
        }),
    decreases colors.len() - i,
{
    let cuts = spec_fade_cuts(colors, steps, start, i);
    if i >= colors.len() {
        // No indices left: no cuts, and the final index is behind us.
    } else if spec_emit_between(colors[start], colors[i], steps, i) {
        let rest = spec_fade_cuts(colors, steps, i, i + 1);
        lemma_fade_cuts_from(colors, steps, i, i + 1);
        assert(cuts =~= seq![i] + rest);
        assert(cuts[0] == i);
        assert forall|j: int| 1 <= j < cuts.len() implies cuts[j] == rest[j - 1] by {}
        assert forall|j: int| 0 <= j < cuts.len() implies i <= #[trigger] cuts[j] && 1 <= cuts[j]
            <= steps by {
            if j > 0 {
                assert(cuts[j] == rest[j - 1]);
            }
        }
        assert forall|j1: int, j2: int| 0 <= j1 < j2 < cuts.len() implies #[trigger] cuts[j1]
            < #[trigger] cuts[j2] by {
            assert(cuts[j2] == rest[j2 - 1]);
            if j1 > 0 {
                assert(cuts[j1] == rest[j1 - 1]);
            }
        }
        if i + 1 <= steps {
            assert(cuts.last() == rest.last());
        } else {
            // This was the boundary flush itself.
            assert(rest.len() == 0);
            assert(cuts.last() == i);
        }
    } else {
        lemma_fade_cuts_from(colors, steps, start, i + 1);
        assert(cuts == spec_fade_cuts(colors, steps, start, i + 1));
        if i <= steps {
            // The walk cannot skip the final index: emission there is
            // unconditional (and index zero is below the first step).
            assert(i + 1 <= steps);
        }
    }
}

/// Gradient compression is order-preserving and conservative: the emitted
/// fades walk the gradient indices strictly forward, each fade starts where
/// the previous one ended (the cluster anchor), every endpoint is a real
/// index of the sequence, and the last fade always ends at the final color
/// — the boundary flush rule.
pub proof fn lemma_gradient_compression_cuts(colors: Seq<HslColor>)
    requires
        colors.len() >= 2,
    ensures
        ({
            let cuts = spec_cuts(colors);
            &&& 1 <= cuts.len() <= colors.len() - 1
            &&& forall|j: int| 0 <= j < cuts.len() ==> 1 <= #[trigger] cuts[j] <= colors.len() - 1
            &&& forall|j1: int, j2: int|
                0 <= j1 < j2 < cuts.len() ==> #[trigger] cuts[j1] < #[trigger] cuts[j2]
            &&& forall|j: int|
                0 <= j < cuts.len() ==> 0 <= #[trigger] spec_cut_start(cuts, j) < cuts[j]
            &&& cuts.last() == colors.len() - 1
        }),
{
    lemma_fade_cuts_from(colors, colors.len() - 1, 0, 0);
    let cuts = spec_cuts(colors);
    assert forall|j: int| 0 <= j < cuts.len() implies 0 <= #[trigger] spec_cut_start(cuts, j)
        < cuts[j] by {
        if j > 0 {
            assert(cuts[j - 1] < cuts[j]);
        }
    }
}

/// Admissibility of one imported curve for sequencing: at least one point
/// to transit to, at least two gradient stops (callers substitute a flat
/// fallback pair when no gradient source exists), and every coordinate
/// within the working envelope bound.
pub open spec fn spec_curve_ok(c: BlenderData) -> bool {
    match c {
        BlenderData::PolySpline(p) => {
            &&& p.points@.len() >= 1
            &&& p.color@.len() >= 2
            &&& forall|i: int| 0 <= i < p.points@.len() ==> (#[trigger] p.points@[i]).in_bounds()
            &&& forall|i: int| 0 <= i < p.color@.len() ==> (#[trigger] p.color@[i]).wf()
        },
        BlenderData::NURBSSpline(n) => {
            &&& n.points@.len() >= 1
            &&& n.color@.len() >= 2
            &&& forall|i: int| 0 <= i < n.points@.len() ==> (#[trigger] n.points@[i]).in_bounds()
            &&& forall|i: int| 0 <= i < n.color@.len() ==> (#[trigger] n.color@[i]).wf()
        },
        BlenderData::Particles(ps) => {
            &&& ps.color@.len() >= 2
            &&& forall|i: int| 0 <= i < ps.color@.len() ==> (#[trigger] ps.color@[i]).wf()
            &&& forall|i: int|
                0 <= i < ps.particles@.len() ==> (#[trigger] ps.particles@[i]).location.in_bounds()
                    && ps.particles@[i].prev_location.in_bounds()
        },
    }
}

/// Upper bound on how many global ids sequencing one curve consumes: a
/// transit plus one motion per window plus one fade per gradient stop, or
/// four actions per particle.
pub open spec fn spec_curve_budget(c: BlenderData) -> int {
    match c {
        BlenderData::PolySpline(p) => p.points@.len() as int + p.color@.len() as int,
        BlenderData::NURBSSpline(n) => n.points@.len() as int + n.color@.len() as int,
        BlenderData::Particles(ps) => 4 * ps.particles@.len() as int,
    }
}

/// Upper bound on the global ids a whole input consumes.
pub open spec fn spec_input_budget(input: Seq<BlenderData>) -> int
    decreases input.len(),
{
    if input.len() == 0 {
        0
    } else {
        spec_curve_budget(input[0]) + spec_input_budget(input.drop_first())
    }
}

proof fn lemma_input_budget_nonneg(input: Seq<BlenderData>)
    ensures
        spec_input_budget(input) >= 0,
    decreases input.len(),
{
    if input.len() > 0 {
        lemma_input_budget_nonneg(input.drop_first());
    }
}

proof fn lemma_input_budget_skip(input: Seq<BlenderData>, i: int)
    requires
        0 <= i < input.len(),
    ensures
        spec_input_budget(input.skip(i)) == spec_curve_budget(input[i]) + spec_input_budget(
            input.skip(i + 1),
        ),
{
    assert(input.skip(i).drop_first() =~= input.skip(i + 1));
    assert(input.skip(i)[0] == input[i]);
}

/// Whether moving from `a` to `b` emits a transit action: always when
/// departing home, otherwise only when the positions differ.
pub open spec fn spec_transit_needed(a: BlenderPoint3, b: BlenderPoint3) -> bool {
    a.spec_is_home() || a != b
}

/// How many motion actions sequencing a particle suffix emits, walking from
/// `last`: an optional transit to each trail start, then the fixed delay
/// and the trail line.
pub open spec fn particles_motion_count(
    ps: Seq<crate::import_types::BlenderParticle>,
    last: BlenderPoint3,
) -> int
    decreases ps.len(),
{
    if ps.len() == 0 {
        0
    } else {
        (if spec_transit_needed(last, ps[0].prev_location) {
            1int
        } else {
            0int
        }) + 2 + particles_motion_count(ps.drop_first(), ps[0].location)
    }
}

/// How many motion actions sequencing one curve emits, walking from `last`.
pub open spec fn curve_motion_count(c: BlenderData, last: BlenderPoint3) -> int {
    match c {
        BlenderData::PolySpline(p) => (if spec_transit_needed(last, p.points@[0].spec_bp3()) {
            1int
        } else {
            0int
        }) + (p.points@.len() as int - 1),
        BlenderData::NURBSSpline(n) => (if spec_transit_needed(last, n.points@[0].spec_bp3()) {
            1int
        } else {
            0int
        }) + (if n.points@.len() >= 4 {
            n.points@.len() as int - 3
        } else {
            0int
        }),
        BlenderData::Particles(ps) => particles_motion_count(ps.particles@, last),
    }
}

/// How many light actions sequencing one curve emits: one per emitted
/// gradient cut, or one constant-on light per particle.
pub open spec fn curve_light_count(c: BlenderData) -> int {
    match c {
        BlenderData::PolySpline(p) => spec_cuts(p.color@).len() as int,
        BlenderData::NURBSSpline(n) => spec_cuts(n.color@).len() as int,
        BlenderData::Particles(ps) => ps.particles@.len() as int,
    }
}

/// The tool position after sequencing one curve that was entered at `last`:
/// the end point of its final window, or the last particle's trail end; a
/// curve without a full window leaves the position untouched.
pub open spec fn curve_end_point(c: BlenderData, last: BlenderPoint3) -> BlenderPoint3 {
    match c {
        BlenderData::PolySpline(p) => if p.points@.len() >= 2 {
            p.points@[p.points@.len() - 1].spec_bp3()
        } else {
            last
        },
        BlenderData::NURBSSpline(n) => if n.points@.len() >= 4 {
            n.points@[n.points@.len() - 2].spec_bp3()
        } else {
            last
        },
        BlenderData::Particles(ps) => if ps.particles@.len() >= 1 {
            ps.particles@[ps.particles@.len() - 1].location
        } else {
            last
        },
    }
}

/// The motion entry queued for the transit from `a` to `b`: the raw
/// point-transit when departing home, the shaped Bezier otherwise.
pub open spec fn transit_entry_matches(
    e: crate::export_types::DeltaAction,
    a: BlenderPoint3,
    b: BlenderPoint3,
) -> bool {
    &&& e.payload.reference == MotionReferenceFrame::Absolute
    &&& (if a.spec_is_home() {
        e.payload.motion_type == MotionInterpolationType::PointTransit && e.payload.duration == 500
            && e.payload.points@ == seq![spec_coords(b)]
    } else {
        e.payload.motion_type == MotionInterpolationType::BezierCubic && e.payload.duration
            == duration_spec(sqrt_floor(dist_sq(a, b)), MOVEMENT_SPEED as int)
            && e.payload.points@ == spec_transit_points(a, b)
    })
}

/// The motion entry queued for one polyline window: a line over the pair,
/// at the configured speed.
pub open spec fn poly_line_entry_matches(
    e: crate::export_types::DeltaAction,
    a: BlenderPoint3,
    b: BlenderPoint3,
) -> bool {
    &&& e.payload.motion_type == MotionInterpolationType::Line
    &&& e.payload.reference == MotionReferenceFrame::Absolute
    &&& e.payload.duration == duration_spec(sqrt_floor(dist_sq(a, b)), MOVEMENT_SPEED as int)
    &&& e.payload.points@ == seq![spec_coords(a), spec_coords(b)]
}

/// The movement time accumulated by the first `k` windows of a polyline,
/// starting from a fresh group.
pub open spec fn poly_move_time(pts: Seq<crate::geometry::BlenderPoint4>, k: int) -> int
    decreases k,
{
    if k <= 0 {
        0
    } else {
        crate::export_types::spec_accumulate(
            poly_move_time(pts, k - 1),
            MotionInterpolationType::Line,
            duration_spec(
                sqrt_floor(dist_sq(pts[k - 1].spec_bp3(), pts[k].spec_bp3())),
                MOVEMENT_SPEED as int,
            ),
        )
    }
}

/// The tool position after the first `i` curves of an input, starting from
/// the device's home position.
pub open spec fn toolpath_pos_at(input: Seq<BlenderData>, i: int) -> BlenderPoint3
    decreases i,
{
    if i <= 0 {
        BlenderPoint3 { x: 0, y: 0, z: 0 }
    } else {
        curve_end_point(input[i - 1], toolpath_pos_at(input, i - 1))
    }
}

/// Motion actions emitted by the first `i` curves of an input.
pub open spec fn toolpath_motions_to(input: Seq<BlenderData>, i: int) -> int
    decreases i,
{
    if i <= 0 {
        0
    } else {
        toolpath_motions_to(input, i - 1) + curve_motion_count(
            input[i - 1],
            toolpath_pos_at(input, i - 1),
        )
    }
}

/// Light actions emitted by the first `i` curves of an input.
pub open spec fn toolpath_lights_to(input: Seq<BlenderData>, i: int) -> int
    decreases i,
{
    if i <= 0 {
        0
    } else {
        toolpath_lights_to(input, i - 1) + curve_light_count(input[i - 1])
    }
}

proof fn lemma_particles_motion_count_nonneg(
    ps: Seq<crate::import_types::BlenderParticle>,
    last: BlenderPoint3,
)
    ensures
        particles_motion_count(ps, last) >= 0,
    decreases ps.len(),
{
    if ps.len() > 0 {
        lemma_particles_motion_count_nonneg(ps.drop_first(), ps[0].location);
    }
}

proof fn lemma_curve_counts_nonneg(c: BlenderData, last: BlenderPoint3)
    requires
        spec_curve_ok(c),
    ensures
        curve_motion_count(c, last) >= 0,
        curve_light_count(c) >= 0,
{
    match c {
        BlenderData::Particles(ps) => {
            lemma_particles_motion_count_nonneg(ps.particles@, last);
        },
        _ => {},
    }
}

proof fn lemma_toolpath_prefix_monotone(input: Seq<BlenderData>, i: int, j: int)
    requires
        0 <= i <= j <= input.len(),
        forall|k: int| 0 <= k < input.len() ==> spec_curve_ok(#[trigger] input[k]),
    ensures
        toolpath_motions_to(input, i) <= toolpath_motions_to(input, j),
        toolpath_lights_to(input, i) <= toolpath_lights_to(input, j),
    decreases j - i,
{
    if i < j {
        lemma_toolpath_prefix_monotone(input, i, j - 1);
        lemma_curve_counts_nonneg(input[j - 1], toolpath_pos_at(input, j - 1));
    }
}

/// The actions one curve contributes to the final output: its motions
/// occupy positions `d0 ..` of the motion list and its lights positions
/// `l0 ..` of the light list, with exactly the kinds, durations, waypoints,
/// global ids and barrier links the dispatch prescribes.  Fade global ids
/// start after the curve's own motions; only a curve with at least one full
/// window pins the barrier its fades carry.
pub open spec fn curve_entries_ok(
    c: BlenderData,
    delta: Seq<crate::export_types::DeltaAction>,
    light: Seq<crate::export_types::LightAction>,
    d0: int,
    l0: int,
    last: BlenderPoint3,
) -> bool {
    match c {
        BlenderData::PolySpline(p) => {
            let n = p.points@.len() as int;
            let t01: int = if spec_transit_needed(last, p.points@[0].spec_bp3()) {
                1
            } else {
                0
            };
            let cuts = spec_cuts(p.color@);
            &&& (t01 == 1 ==> transit_entry_matches(delta[d0], last, p.points@[0].spec_bp3())
                && delta[d0].id == d0 + l0)
            &&& (forall|idx: int|
                d0 + t01 <= idx < d0 + t01 + (n - 1) ==> poly_line_entry_matches(
                    #[trigger] delta[idx],
                    p.points@[idx - d0 - t01].spec_bp3(),
                    p.points@[idx - d0 - t01 + 1].spec_bp3(),
                ) && delta[idx].id == idx + l0)
            &&& (forall|idx: int|
                l0 <= idx < l0 + cuts.len() ==> fade_entry_core(
                    #[trigger] light[idx],
                    d0 + t01 + (n - 1) + l0,
                    p.color@,
                    cuts,
                    idx - l0,
                    poly_move_time(p.points@, n - 1),
                    p.color@.len() - 1,
                ) && (n >= 2 ==> light[idx].payload.id == d0 + t01 + 1))
        },
        BlenderData::NURBSSpline(sp) => {
            let n = sp.points@.len() as int;
            let t01: int = if spec_transit_needed(last, sp.points@[0].spec_bp3()) {
                1
            } else {
                0
            };
            let wins: int = if n >= 4 {
                n - 3
            } else {
                0
            };
            let cuts = spec_cuts(sp.color@);
            &&& (t01 == 1 ==> transit_entry_matches(delta[d0], last, sp.points@[0].spec_bp3())
                && delta[d0].id == d0 + l0)
            &&& (forall|idx: int|
                d0 + t01 <= idx < d0 + t01 + wins ==> nurbs_segment_entry_matches(
                    #[trigger] delta[idx],
                    sp.points@[idx - d0 - t01].spec_bp3(),
                    sp.points@[idx - d0 - t01 + 1].spec_bp3(),
                    sp.points@[idx - d0 - t01 + 2].spec_bp3(),
                    sp.points@[idx - d0 - t01 + 3].spec_bp3(),
                ) && delta[idx].id == idx + l0)
            &&& (forall|idx: int|
                l0 <= idx < l0 + cuts.len() ==> fade_entry_core(
                    #[trigger] light[idx],
                    d0 + t01 + wins + l0,
                    sp.color@,
                    cuts,
                    idx - l0,
                    nurbs_move_time(sp.points@, wins),
                    sp.color@.len() - 1,
                ) && (n >= 4 ==> light[idx].payload.id == d0 + t01 + 1))
        },
        BlenderData::Particles(ps) => {
            forall|idx: int|
                l0 <= idx < l0 + ps.particles@.len() ==> {
                    let li = #[trigger] light[idx];
                    &&& particle_light_entry_matches(
                        li,
                        ps.particles@[idx - l0].prev_location,
                        ps.particles@[idx - l0].location,
                        ps.color@,
                    )
                    &&& 2 <= li.payload.id <= d0 + particles_motion_count(ps.particles@, last)
                    &&& particle_line_entry_matches(
                        delta[li.payload.id - 1],
                        ps.particles@[idx - l0].prev_location,
                        ps.particles@[idx - l0].location,
                    )
                    &&& delay_entry_matches(delta[li.payload.id - 2])
                }
        },
    }
}

/// A curve's entry description only reads the positions the curve itself
/// wrote, so it survives any later append-only growth of the two lists.
proof fn lemma_curve_entries_preserved(
    c: BlenderData,
    delta1: Seq<crate::export_types::DeltaAction>,
    light1: Seq<crate::export_types::LightAction>,
    delta2: Seq<crate::export_types::DeltaAction>,
    light2: Seq<crate::export_types::LightAction>,
    d0: int,
    l0: int,
    last: BlenderPoint3,
)
    requires
        spec_curve_ok(c),
        curve_entries_ok(c, delta1, light1, d0, l0, last),
        0 <= d0,
        0 <= l0,
        d0 + curve_motion_count(c, last) <= delta1.len(),
        l0 + curve_light_count(c) <= light1.len(),
        forall|q: int| 0 <= q < delta1.len() ==> #[trigger] delta2[q] == delta1[q],
        forall|q: int| 0 <= q < light1.len() ==> #[trigger] light2[q] == light1[q],
    ensures
        curve_entries_ok(c, delta2, light2, d0, l0, last),
{
    match c {
        BlenderData::PolySpline(p) => {
            let n = p.points@.len() as int;
            let t01: int = if spec_transit_needed(last, p.points@[0].spec_bp3()) {
                1
            } else {
                0
            };
            let cuts = spec_cuts(p.color@);
            lemma_gradient_compression_cuts(p.color@);
            if t01 == 1 {
                assert(delta2[d0] == delta1[d0]);
            }
            assert forall|idx: int| d0 + t01 <= idx < d0 + t01 + (n - 1) implies
                poly_line_entry_matches(
                #[trigger] delta2[idx],
                p.points@[idx - d0 - t01].spec_bp3(),
                p.points@[idx - d0 - t01 + 1].spec_bp3(),
            ) && delta2[idx].id == idx + l0 by {
                assert(delta2[idx] == delta1[idx]);
            }
            assert forall|idx: int| l0 <= idx < l0 + cuts.len() implies fade_entry_core(
                #[trigger] light2[idx],
                d0 + t01 + (n - 1) + l0,
                p.color@,
                cuts,
                idx - l0,
                poly_move_time(p.points@, n - 1),
                p.color@.len() - 1,
            ) && (n >= 2 ==> light2[idx].payload.id == d0 + t01 + 1) by {
                assert(light2[idx] == light1[idx]);
            }
        },
        BlenderData::NURBSSpline(sp) => {
            let n = sp.points@.len() as int;
            let t01: int = if spec_transit_needed(last, sp.points@[0].spec_bp3()) {
                1
            } else {
                0
            };
            let wins: int = if n >= 4 {
                n - 3
            } else {
                0
            };
            let cuts = spec_cuts(sp.color@);
            lemma_gradient_compression_cuts(sp.color@);
            if t01 == 1 {
                assert(delta2[d0] == delta1[d0]);
            }
            assert forall|idx: int| d0 + t01 <= idx < d0 + t01 + wins implies
                nurbs_segment_entry_matches(
                #[trigger] delta2[idx],
                sp.points@[idx - d0 - t01].spec_bp3(),
                sp.points@[idx - d0 - t01 + 1].spec_bp3(),
                sp.points@[idx - d0 - t01 + 2].spec_bp3(),
                sp.points@[idx - d0 - t01 + 3].spec_bp3(),
            ) && delta2[idx].id == idx + l0 by {
                assert(delta2[idx] == delta1[idx]);
            }
            assert forall|idx: int| l0 <= idx < l0 + cuts.len() implies fade_entry_core(
                #[trigger] light2[idx],
                d0 + t01 + wins + l0,
                sp.color@,
                cuts,
                idx - l0,
                nurbs_move_time(sp.points@, wins),
                sp.color@.len() - 1,
            ) && (n >= 4 ==> light2[idx].payload.id == d0 + t01 + 1) by {
                assert(light2[idx] == light1[idx]);
            }
        },
        BlenderData::Particles(ps) => {
            assert forall|idx: int| l0 <= idx < l0 + ps.particles@.len() implies {
                let li = #[trigger] light2[idx];
                &&& particle_light_entry_matches(
                    li,
                    ps.particles@[idx - l0].prev_location,
                    ps.particles@[idx - l0].location,
                    ps.color@,
                )
                &&& 2 <= li.payload.id <= d0 + particles_motion_count(ps.particles@, last)
                &&& particle_line_entry_matches(
                    delta2[li.payload.id - 1],
                    ps.particles@[idx - l0].prev_location,
                    ps.particles@[idx - l0].location,
                )
                &&& delay_entry_matches(delta2[li.payload.id - 2])
            } by {
                assert(light2[idx] == light1[idx]);
                let li = light1[idx];
                assert(2 <= li.payload.id <= d0 + particles_motion_count(ps.particles@, last));
                assert(delta2[li.payload.id - 1] == delta1[li.payload.id - 1]);
                assert(delta2[li.payload.id - 2] == delta1[li.payload.id - 2]);
            }
        },
    }
}

/// Sequence one polyline: a transit to its first point, a barrier reset,
/// one line motion per consecutive point pair, then the compressed fades of
/// its gradient over the accumulated movement time.  Returns the tool
/// position after the curve.
pub fn process_poly(
    events: &mut ActionGroups,
    spline: &BlenderPoly,
    last_point: BlenderPoint3,
) -> (r: BlenderPoint3)
    requires
        old(events).wf(),
        spec_curve_ok(BlenderData::PolySpline(*spline)),
        last_point.in_bounds(),
        old(events).global_id + spline.points@.len() + spline.color@.len() <= 0xFFFF_FFFF,
    ensures
        final(events).wf(),
        final(events).run@ == old(events).run@,
        old(events).global_id <= final(events).global_id,
        final(events).global_id <= old(events).global_id + spline.points@.len()
            + spline.color@.len(),
        final(events).delta@.len() == old(events).delta@.len() + curve_motion_count(
            BlenderData::PolySpline(*spline),
            last_point,
        ),
        final(events).light@.len() == old(events).light@.len() + curve_light_count(
            BlenderData::PolySpline(*spline),
        ),
        final(events).delta@.subrange(0, old(events).delta@.len() as int) == old(events).delta@,
        final(events).light@.subrange(0, old(events).light@.len() as int) == old(events).light@,
        spec_transit_needed(last_point, spline.points@[0].spec_bp3()) ==> transit_entry_matches(
            final(events).delta@[old(events).delta@.len() as int],
            last_point,
            spline.points@[0].spec_bp3(),
        ),
        forall|j: int|
            0 <= j < spline.points@.len() - 1 ==> #[trigger] poly_line_entry_matches(
                final(events).delta@[final(events).delta@.len() - (spline.points@.len() - 1) + j],
                spline.points@[j].spec_bp3(),
                spline.points@[j + 1].spec_bp3(),
            ),
        final(events).move_time == poly_move_time(spline.points@, spline.points@.len() - 1),
        forall|j: int|
            0 <= j < spec_cuts(spline.color@).len() ==> #[trigger] fade_entry_matches(
                final(events).light@[old(events).light@.len() + j],
                final(events).global_id - spec_cuts(spline.color@).len(),
                final(events).move_barrier_id as int,
                spline.color@,
                spec_cuts(spline.color@),
                j,
                final(events).move_time as int,
                spline.color@.len() - 1,
            ),
        spec_transit_needed(last_point, spline.points@[0].spec_bp3()) ==> final(events).delta@[old(
            events,
        ).delta@.len() as int].id == old(events).global_id,
        forall|j: int|
            0 <= j < spline.points@.len() - 1 ==> (#[trigger] final(events).delta@[final(events).delta@.len() - (spline.points@.len() - 1) + j]).id == old(events).global_id + (
            if spec_transit_needed(last_point, spline.points@[0].spec_bp3()) {
                1int
            } else {
                0int
            }) + j,
        spline.points@.len() >= 2 ==> final(events).move_barrier_id == old(events).delta@.len() + (
        if spec_transit_needed(last_point, spline.points@[0].spec_bp3()) {
            1int
        } else {
            0int
        }) + 1,
        r == curve_end_point(BlenderData::PolySpline(*spline), last_point),
        r.in_bounds(),
{
    let ghost gid0 = events.global_id;
    // A transit from the end of the previous curve to the start of this one.
    add_starting_move(events, last_point, spline.points[0].into_bp3());
    events.reset_barrier_id();

    let mut last = last_point;
    let ghost gid1 = events.global_id;
    let ghost delta1 = events.delta@.len() as int;
    proof {
        assert(delta1 == old(events).delta@.len() + (if spec_transit_needed(
            last_point,
            spline.points@[0].spec_bp3(),
        ) {
            1int
        } else {
            0int
        }));
        assert(events.delta@.subrange(0, old(events).delta@.len() as int) =~= old(events).delta@);
    }
    let mut j: usize = 0;
    while j + 1 < spline.points.len()
        invariant
            events.wf(),
            spec_curve_ok(BlenderData::PolySpline(*spline)),
            delta1 == old(events).delta@.len() + (if spec_transit_needed(
                last_point,
                spline.points@[0].spec_bp3(),
            ) {
                1int
            } else {
                0int
            }),
            0 <= j < spline.points@.len(),
            events.global_id == gid1 + j,
            gid0 <= gid1 <= gid0 + 1,
            gid1 == gid0 + (delta1 - old(events).delta@.len()),
            gid0 + spline.points@.len() + spline.color@.len() <= 0xFFFF_FFFF,
            events.run@ == old(events).run@,
            events.delta@.len() == delta1 + j,
            events.light@ == old(events).light@,
            events.delta@.subrange(0, old(events).delta@.len() as int) == old(events).delta@,
            spec_transit_needed(last_point, spline.points@[0].spec_bp3())
                ==> transit_entry_matches(
                events.delta@[old(events).delta@.len() as int],
                last_point,
                spline.points@[0].spec_bp3(),
            ) && events.delta@[old(events).delta@.len() as int].id == gid0,
            forall|k: int|
                0 <= k < j ==> #[trigger] poly_line_entry_matches(
                    events.delta@[delta1 + k],
                    spline.points@[k].spec_bp3(),
                    spline.points@[k + 1].spec_bp3(),
                ),
            forall|k: int| 0 <= k < j ==> (#[trigger] events.delta@[delta1 + k]).id == gid1 + k,
            (j == 0 && events.move_barrier_reset) || (j >= 1 && !events.move_barrier_reset
                && events.move_barrier_id == delta1 + 1),
            events.move_time == poly_move_time(spline.points@, j as int),
            (j == 0 && last == last_point) || (j >= 1 && last == spline.points@[j as int].spec_bp3()),
            last.in_bounds(),
        decreases spline.points@.len() - j,
    {
        let ghost pre = *events;
        let a = spline.points[j].into_bp3();
        let b = spline.points[j + 1].into_bp3();
        let pair: Vec<BlenderPoint3> = vec![a, b];
        proof {
            assert(pair@ =~= seq![a, b]);
        }
        let duration = match calculate_duration(pair.as_slice(), MOVEMENT_SPEED) {
            Ok(d) => d,
            Err(_) => {
                assert(false);
                10
            },
        };
        last = b;
        let points: Vec<(i64, i64, i64)> = vec![(a.x, a.y, a.z), (b.x, b.y, b.z)];
        proof {
            assert(points@ =~= seq![spec_coords(a), spec_coords(b)]);
        }
        events.add_delta_action(
            Motion {
                id: 0,
                reference: MotionReferenceFrame::Absolute,
                motion_type: MotionInterpolationType::Line,
                duration,
                points,
            },
        );
        proof {
            assert forall|k: int| 0 <= k < pre.delta@.len() implies events.delta@[k]
                == #[trigger] pre.delta@[k] by {
                assert(events.delta@.drop_last()[k] == events.delta@[k]);
            }
            assert forall|k: int| 0 <= k < old(events).delta@.len() implies events.delta@[k]
                == #[trigger] old(events).delta@[k] by {
                assert(pre.delta@.subrange(0, old(events).delta@.len() as int)[k]
                    == pre.delta@[k]);
            }
            assert(events.delta@.subrange(0, old(events).delta@.len() as int) =~= old(
                events,
            ).delta@);
            assert forall|k: int| 0 <= k < j + 1 implies #[trigger] poly_line_entry_matches(
                events.delta@[delta1 + k],
                spline.points@[k].spec_bp3(),
                spline.points@[k + 1].spec_bp3(),
            ) by {
                if k < j {
                    assert(events.delta@[delta1 + k] == pre.delta@[delta1 + k]);
                    assert(poly_line_entry_matches(
                        pre.delta@[delta1 + k],
                        spline.points@[k].spec_bp3(),
                        spline.points@[k + 1].spec_bp3(),
                    ));
                } else {
                    assert(events.delta@[delta1 + j] == events.delta@.last());
                }
            }
            assert forall|k: int| 0 <= k < j + 1 implies (#[trigger] events.delta@[delta1 + k]).id
                == gid1 + k by {
                if k < j {
                    assert(events.delta@[delta1 + k] == pre.delta@[delta1 + k]);
                } else {
                    assert(events.delta@[delta1 + j] == events.delta@.last());
                }
            }
        }
        j = j + 1;
    }

    // Lighting events matching the gradient, over this group's movement time.
    let ghost pre_fades = *events;
    let budget_time = events.get_movement_duration();
    generate_gradient_fades(events, &spline.color, budget_time);
    proof {
        lemma_gradient_compression_cuts(spline.color@);
        assert(events.delta@.subrange(0, old(events).delta@.len() as int) =~= old(events).delta@);
        assert(events.light@.subrange(0, old(events).light@.len() as int) =~= old(events).light@);
        let cuts = spec_cuts(spline.color@);
        assert forall|j: int| 0 <= j < cuts.len() implies #[trigger] fade_entry_matches(
            events.light@[old(events).light@.len() + j],
            events.global_id - cuts.len(),
            events.move_barrier_id as int,
            spline.color@,
            cuts,
            j,
            events.move_time as int,
            spline.color@.len() - 1,
        ) by {
            assert(fade_entry_matches(
                events.light@[pre_fades.light@.len() + j],
                pre_fades.global_id as int,
                pre_fades.move_barrier_id as int,
                spline.color@,
                cuts,
                j,
                budget_time as int,
                spline.color@.len() - 1,
            ));
        }
    }
    last
}

/// The motion entry queued for one Catmull-Rom window: a curved segment
/// over the four control points, timed by the sampled arc length.
pub open spec fn nurbs_segment_entry_matches(
    e: crate::export_types::DeltaAction,
    p0: BlenderPoint3,
    p1: BlenderPoint3,
    p2: BlenderPoint3,
    p3: BlenderPoint3,
) -> bool {
    &&& e.payload.motion_type == MotionInterpolationType::CatmullSpline
    &&& e.payload.reference == MotionReferenceFrame::Absolute
    &&& e.payload.duration == duration_spec(
        crate::delta_utils::catmull_arc_to(p0, p1, p2, p3, 98),
        MOVEMENT_SPEED as int,
    )
    &&& e.payload.points@ == seq![
        spec_coords(p0),
        spec_coords(p1),
        spec_coords(p2),
        spec_coords(p3),
    ]
}

/// The movement time accumulated by the first `k` windows of a Catmull-Rom
/// spline, starting from a fresh group.
pub open spec fn nurbs_move_time(pts: Seq<crate::geometry::BlenderPoint4>, k: int) -> int
    decreases k,
{
    if k <= 0 {
        0
    } else {
        crate::export_types::spec_accumulate(
            nurbs_move_time(pts, k - 1),
            MotionInterpolationType::CatmullSpline,
            duration_spec(
                crate::delta_utils::catmull_arc_to(
                    pts[k - 1].spec_bp3(),
                    pts[k].spec_bp3(),
                    pts[k + 1].spec_bp3(),
                    pts[k + 2].spec_bp3(),
                    98,
                ),
                MOVEMENT_SPEED as int,
            ),
        )
    }
}

/// Sequence one Catmull-Rom spline: as a polyline, but windowed over four
/// control points per segment and tagged as curved interpolation.
pub fn process_nurbs(
    events: &mut ActionGroups,
    spline: &BlenderNURBS,
    last_point: BlenderPoint3,
) -> (r: BlenderPoint3)
    requires
        old(events).wf(),
        spec_curve_ok(BlenderData::NURBSSpline(*spline)),
        last_point.in_bounds(),
        old(events).global_id + spline.points@.len() + spline.color@.len() <= 0xFFFF_FFFF,
    ensures
        final(events).wf(),
        final(events).run@ == old(events).run@,
        old(events).global_id <= final(events).global_id,
        final(events).global_id <= old(events).global_id + spline.points@.len()
            + spline.color@.len(),
        final(events).delta@.len() == old(events).delta@.len() + curve_motion_count(
            BlenderData::NURBSSpline(*spline),
            last_point,
        ),
        final(events).light@.len() == old(events).light@.len() + curve_light_count(
            BlenderData::NURBSSpline(*spline),
        ),
        final(events).delta@.subrange(0, old(events).delta@.len() as int) == old(events).delta@,
        final(events).light@.subrange(0, old(events).light@.len() as int) == old(events).light@,
        spec_transit_needed(last_point, spline.points@[0].spec_bp3()) ==> transit_entry_matches(
            final(events).delta@[old(events).delta@.len() as int],
            last_point,
            spline.points@[0].spec_bp3(),
        ),
        forall|j: int|
            0 <= j < spline.points@.len() - 3 ==> #[trigger] nurbs_segment_entry_matches(
                final(events).delta@[final(events).delta@.len() - (spline.points@.len() - 3) + j],
                spline.points@[j].spec_bp3(),
                spline.points@[j + 1].spec_bp3(),
                spline.points@[j + 2].spec_bp3(),
                spline.points@[j + 3].spec_bp3(),
            ),
        final(events).move_time == (if spline.points@.len() >= 4 {
            nurbs_move_time(spline.points@, spline.points@.len() - 3)
        } else {
            0int
        }),
        forall|j: int|
            0 <= j < spec_cuts(spline.color@).len() ==> #[trigger] fade_entry_matches(
                final(events).light@[old(events).light@.len() + j],
                final(events).global_id - spec_cuts(spline.color@).len(),
                final(events).move_barrier_id as int,
                spline.color@,
                spec_cuts(spline.color@),
                j,
                final(events).move_time as int,
                spline.color@.len() - 1,
            ),
        spec_transit_needed(last_point, spline.points@[0].spec_bp3()) ==> final(events).delta@[old(
            events,
        ).delta@.len() as int].id == old(events).global_id,
        forall|j: int|
            0 <= j < spline.points@.len() - 3 ==> (#[trigger] final(events).delta@[final(events).delta@.len() - (spline.points@.len() - 3) + j]).id == old(events).global_id + (
            if spec_transit_needed(last_point, spline.points@[0].spec_bp3()) {
                1int
            } else {
                0int
            }) + j,
        spline.points@.len() >= 4 ==> final(events).move_barrier_id == old(events).delta@.len() + (
        if spec_transit_needed(last_point, spline.points@[0].spec_bp3()) {
            1int
        } else {
            0int
        }) + 1,
        r == curve_end_point(BlenderData::NURBSSpline(*spline), last_point),
        r.in_bounds(),
{
    let ghost gid0 = events.global_id;
    add_starting_move(events, last_point, spline.points[0].into_bp3());
    events.reset_barrier_id();

    let mut last = last_point;
    let ghost gid1 = events.global_id;
    let ghost delta1 = events.delta@.len() as int;
    proof {
        assert(delta1 == old(events).delta@.len() + (if spec_transit_needed(
            last_point,
            spline.points@[0].spec_bp3(),
        ) {
            1int
        } else {
            0int
        }));
        assert(events.delta@.subrange(0, old(events).delta@.len() as int) =~= old(events).delta@);
    }
    let mut j: usize = 0;
    while spline.points.len() >= 4 && j < spline.points.len() - 3
        invariant
            events.wf(),
            spec_curve_ok(BlenderData::NURBSSpline(*spline)),
            0 <= j <= spline.points@.len(),
            spline.points@.len() >= 4 ==> j + 3 <= spline.points@.len(),
            spline.points@.len() < 4 ==> j == 0,
            delta1 == old(events).delta@.len() + (if spec_transit_needed(
                last_point,
                spline.points@[0].spec_bp3(),
            ) {
                1int
            } else {
                0int
            }),
            events.global_id == gid1 + j,
            gid0 <= gid1 <= gid0 + 1,
            gid1 == gid0 + (delta1 - old(events).delta@.len()),
            gid0 + spline.points@.len() + spline.color@.len() <= 0xFFFF_FFFF,
            events.run@ == old(events).run@,
            events.delta@.len() == delta1 + j,
            events.light@ == old(events).light@,
            events.delta@.subrange(0, old(events).delta@.len() as int) == old(events).delta@,
            spec_transit_needed(last_point, spline.points@[0].spec_bp3())
                ==> transit_entry_matches(
                events.delta@[old(events).delta@.len() as int],
                last_point,
                spline.points@[0].spec_bp3(),
            ) && events.delta@[old(events).delta@.len() as int].id == gid0,
            forall|k: int|
                0 <= k < j ==> #[trigger] nurbs_segment_entry_matches(
                    events.delta@[delta1 + k],
                    spline.points@[k].spec_bp3(),
                    spline.points@[k + 1].spec_bp3(),
                    spline.points@[k + 2].spec_bp3(),
                    spline.points@[k + 3].spec_bp3(),
                ),
            forall|k: int| 0 <= k < j ==> (#[trigger] events.delta@[delta1 + k]).id == gid1 + k,
            (j == 0 && events.move_barrier_reset) || (j >= 1 && !events.move_barrier_reset
                && events.move_barrier_id == delta1 + 1),
            events.move_time == nurbs_move_time(spline.points@, j as int),
            (j == 0 && last == last_point) || (j >= 1 && last == spline.points@[j as int + 1].spec_bp3()),
            last.in_bounds(),
        decreases spline.points@.len() - j,
    {
        let ghost pre = *events;
        let p0 = spline.points[j].into_bp3();
        let p1 = spline.points[j + 1].into_bp3();
        let p2 = spline.points[j + 2].into_bp3();
        let p3 = spline.points[j + 3].into_bp3();
        let geom: Vec<BlenderPoint3> = vec![p0, p1, p2, p3];
        proof {
            assert(geom@ =~= seq![p0, p1, p2, p3]);
        }
        let duration = match calculate_duration(geom.as_slice(), MOVEMENT_SPEED) {
            Ok(d) => d,
            Err(_) => {
                assert(false);
                10
            },
        };
        last = p2;
        let points: Vec<(i64, i64, i64)> = vec![
            (p0.x, p0.y, p0.z),
            (p1.x, p1.y, p1.z),
            (p2.x, p2.y, p2.z),
            (p3.x, p3.y, p3.z),
        ];
        proof {
            assert(points@ =~= seq![
                spec_coords(p0),
                spec_coords(p1),
                spec_coords(p2),
                spec_coords(p3),
            ]);
        }
        events.add_delta_action(
            Motion {
                id: 0,
                reference: MotionReferenceFrame::Absolute,
                motion_type: MotionInterpolationType::CatmullSpline,
                duration,
                points,
            },
        );
        proof {
            assert forall|k: int| 0 <= k < pre.delta@.len() implies events.delta@[k]
                == #[trigger] pre.delta@[k] by {
                assert(events.delta@.drop_last()[k] == events.delta@[k]);
            }
            assert forall|k: int| 0 <= k < old(events).delta@.len() implies events.delta@[k]
                == #[trigger] old(events).delta@[k] by {
                assert(pre.delta@.subrange(0, old(events).delta@.len() as int)[k]
                    == pre.delta@[k]);
            }
            assert(events.delta@.subrange(0, old(events).delta@.len() as int) =~= old(
                events,
            ).delta@);
            assert forall|k: int| 0 <= k < j + 1 implies #[trigger] nurbs_segment_entry_matches(
                events.delta@[delta1 + k],
                spline.points@[k].spec_bp3(),
                spline.points@[k + 1].spec_bp3(),
                spline.points@[k + 2].spec_bp3(),
                spline.points@[k + 3].spec_bp3(),
            ) by {
                if k < j {
                    assert(events.delta@[delta1 + k] == pre.delta@[delta1 + k]);
                    assert(nurbs_segment_entry_matches(
                        pre.delta@[delta1 + k],
                        spline.points@[k].spec_bp3(),
                        spline.points@[k + 1].spec_bp3(),
                        spline.points@[k + 2].spec_bp3(),
                        spline.points@[k + 3].spec_bp3(),
                    ));
                } else {
                    assert(events.delta@[delta1 + j] == events.delta@.last());
                }
            }
            assert forall|k: int| 0 <= k < j + 1 implies (#[trigger] events.delta@[delta1 + k]).id
                == gid1 + k by {
                if k < j {
                    assert(events.delta@[delta1 + k] == pre.delta@[delta1 + k]);
                } else {
                    assert(events.delta@[delta1 + j] == events.delta@.last());
                }
            }
        }
        j = j + 1;
    }

    let ghost pre_fades = *events;
    let budget_time = events.get_movement_duration();
    generate_gradient_fades(events, &spline.color, budget_time);
    proof {
        lemma_gradient_compression_cuts(spline.color@);
        assert(events.delta@.subrange(0, old(events).delta@.len() as int) =~= old(events).delta@);
        assert(events.light@.subrange(0, old(events).light@.len() as int) =~= old(events).light@);
        let cuts = spec_cuts(spline.color@);
        assert forall|j: int| 0 <= j < cuts.len() implies #[trigger] fade_entry_matches(
            events.light@[old(events).light@.len() + j],
            events.global_id - cuts.len(),
            events.move_barrier_id as int,
            spline.color@,
            cuts,
            j,
            events.move_time as int,
            spline.color@.len() - 1,
        ) by {
            assert(fade_entry_matches(
                events.light@[pre_fades.light@.len() + j],
                pre_fades.global_id as int,
                pre_fades.move_barrier_id as int,
                spline.color@,
                cuts,
                j,
                budget_time as int,
                spline.color@.len() - 1,
            ));
        }
    }
    last
}

/// The motion entry queued for the fixed inter-particle delay.
pub open spec fn delay_entry_matches(e: crate::export_types::DeltaAction) -> bool {
    &&& e.payload.motion_type == MotionInterpolationType::PointTransit
    &&& e.payload.reference == MotionReferenceFrame::Relative
    &&& e.payload.duration == POINT_DELAY_MS
    &&& e.payload.points@ == seq![(0i64, 0i64, 0i64)]
}

/// The motion entry queued for one particle trail: a line from the
/// previous to the current location.
pub open spec fn particle_line_entry_matches(
    e: crate::export_types::DeltaAction,
    prev: BlenderPoint3,
    loc: BlenderPoint3,
) -> bool {
    &&& e.payload.motion_type == MotionInterpolationType::Line
    &&& e.payload.reference == MotionReferenceFrame::Absolute
    &&& e.payload.duration == duration_spec(sqrt_floor(dist_sq(prev, loc)), MOVEMENT_SPEED as int)
    &&& e.payload.points@ == seq![spec_coords(prev), spec_coords(loc)]
}

/// The unit-interval payload triples of a color sequence.
pub open spec fn led_points(colors: Seq<HslColor>) -> Seq<(u32, u32, u32)> {
    Seq::new(colors.len(), |i: int| spec_delta_led(colors[i]))
}

/// The light entry queued for one particle trail: the set's shared color,
/// held constant over the trail's duration, and — through the barrier —
/// tied to the trail's own line motion.
pub open spec fn particle_light_entry_matches(
    e: crate::export_types::LightAction,
    prev: BlenderPoint3,
    loc: BlenderPoint3,
    colors: Seq<HslColor>,
) -> bool {
    &&& e.payload.animation_type == LightAnimationType::ConstantOn
    &&& e.payload.duration == duration_spec(sqrt_floor(dist_sq(prev, loc)), MOVEMENT_SPEED as int)
    &&& e.payload.points@ == led_points(colors)
}

/// Sequence one particle set: for each particle, a transit to its trail
/// start, the fixed inter-particle delay, a barrier reset so its light is
/// tied to its own trail, a line motion over the trail, and a constant-on
/// light in the set's shared color spanning the trail's duration.
pub fn process_particles(
    events: &mut ActionGroups,
    p: &BlenderParticles,
    last_point: BlenderPoint3,
) -> (r: BlenderPoint3)
    requires
        old(events).wf(),
        spec_curve_ok(BlenderData::Particles(*p)),
        last_point.in_bounds(),
        old(events).global_id + 4 * p.particles@.len() <= 0xFFFF_FFFF,
    ensures
        final(events).wf(),
        final(events).run@ == old(events).run@,
        old(events).global_id <= final(events).global_id,
        final(events).global_id <= old(events).global_id + 4 * p.particles@.len(),
        final(events).delta@.len() == old(events).delta@.len() + curve_motion_count(
            BlenderData::Particles(*p),
            last_point,
        ),
        final(events).light@.len() == old(events).light@.len() + curve_light_count(
            BlenderData::Particles(*p),
        ),
        final(events).delta@.subrange(0, old(events).delta@.len() as int) == old(events).delta@,
        final(events).light@.subrange(0, old(events).light@.len() as int) == old(events).light@,
        forall|pi: int|
            0 <= pi < p.particles@.len() ==> {
                let li = #[trigger] final(events).light@[old(events).light@.len() + pi];
                &&& particle_light_entry_matches(
                    li,
                    p.particles@[pi].prev_location,
                    p.particles@[pi].location,
                    p.color@,
                )
                &&& 2 <= li.payload.id <= final(events).delta@.len()
                &&& particle_line_entry_matches(
                    final(events).delta@[li.payload.id - 1],
                    p.particles@[pi].prev_location,
                    p.particles@[pi].location,
                )
                &&& delay_entry_matches(final(events).delta@[li.payload.id - 2])
            },
        r == curve_end_point(BlenderData::Particles(*p), last_point),
        r.in_bounds(),
{
    let ghost gid0 = events.global_id;
    let mut last = last_point;
    proof {
        assert(p.particles@.skip(0) =~= p.particles@);
    }
    let mut pi: usize = 0;
    while pi < p.particles.len()
        invariant
            events.wf(),
            spec_curve_ok(BlenderData::Particles(*p)),
            0 <= pi <= p.particles@.len(),
            gid0 <= events.global_id,
            events.global_id <= gid0 + 4 * pi,
            gid0 + 4 * p.particles@.len() <= 0xFFFF_FFFF,
            events.run@ == old(events).run@,
            events.delta@.len() as int + particles_motion_count(
                p.particles@.skip(pi as int),
                last,
            ) == old(events).delta@.len() + particles_motion_count(p.particles@, last_point),
            events.light@.len() == old(events).light@.len() + pi,
            old(events).delta@.len() <= events.delta@.len(),
            events.delta@.subrange(0, old(events).delta@.len() as int) == old(events).delta@,
            events.light@.subrange(0, old(events).light@.len() as int) == old(events).light@,
            forall|q: int|
                0 <= q < pi ==> {
                    let li = #[trigger] events.light@[old(events).light@.len() + q];
                    &&& particle_light_entry_matches(
                        li,
                        p.particles@[q].prev_location,
                        p.particles@[q].location,
                        p.color@,
                    )
                    &&& 2 <= li.payload.id <= events.delta@.len()
                    &&& particle_line_entry_matches(
                        events.delta@[li.payload.id - 1],
                        p.particles@[q].prev_location,
                        p.particles@[q].location,
                    )
                    &&& delay_entry_matches(events.delta@[li.payload.id - 2])
                },
            (pi == 0 && last == last_point) || (pi >= 1 && last == p.particles@[pi as int - 1].location),
            last.in_bounds(),
        decreases p.particles@.len() - pi,
    {
        let ghost pre = *events;
        proof {
            assert(p.particles@.skip(pi as int).drop_first() =~= p.particles@.skip(pi as int + 1));
            assert(p.particles@.skip(pi as int)[0] == p.particles@[pi as int]);
        }
        let particle = p.particles[pi];

        // Move to the particle's trail start.
        add_starting_move(events, last, particle.prev_location);
        let ghost s_transit = *events;

        // A line over the length of the particle's trail.
        let pair: Vec<BlenderPoint3> = vec![particle.prev_location, particle.location];
        proof {
            assert(pair@ =~= seq![particle.prev_location, particle.location]);
        }
        let move_duration = match calculate_duration(pair.as_slice(), MOVEMENT_SPEED) {
            Ok(d) => d,
            Err(_) => {
                assert(false);
                10
            },
        };
        last = particle.location;

        add_delay(events, POINT_DELAY_MS);
        events.reset_barrier_id();
        let ghost s_delay = *events;

        let points: Vec<(i64, i64, i64)> = vec![
            (particle.prev_location.x, particle.prev_location.y, particle.prev_location.z),
            (particle.location.x, particle.location.y, particle.location.z),
        ];
        events.add_delta_action(
            Motion {
                id: 0,
                reference: MotionReferenceFrame::Absolute,
                motion_type: MotionInterpolationType::Line,
                duration: move_duration,
                points,
            },
        );

        // The set's shared color, held constant over the trail's duration.
        let ghost pre_light = *events;
        let mut p_color: Vec<(u32, u32, u32)> = Vec::new();
        let mut k: usize = 0;
        while k < p.color.len()
            invariant
                0 <= k <= p.color@.len(),
                spec_curve_ok(BlenderData::Particles(*p)),
                p_color@.len() == k,
                forall|i: int| 0 <= i < k ==> p_color@[i] == spec_delta_led(#[trigger] p.color@[i]),
            decreases p.color@.len() - k,
        {
            p_color.push(delta_led_from_hsl(&p.color[k]));
            k = k + 1;
        }
        proof {
            assert(p_color@ =~= led_points(p.color@));
        }
        events.add_light_action(
            Fade {
                animation_type: LightAnimationType::ConstantOn,
                id: 0,
                duration: move_duration,
                points: p_color,
            },
        );
        proof {
            // Earlier queued actions are untouched by this particle's four
            // additions.
            assert forall|q: int| 0 <= q < pre.delta@.len() implies events.delta@[q]
                == #[trigger] pre.delta@[q] by {
                assert(events.delta@ == pre_light.delta@);
                assert(pre_light.delta@.drop_last() == s_delay.delta@);
                assert(pre_light.delta@.drop_last()[q] == pre_light.delta@[q]);
                assert(s_delay.delta@.drop_last() == s_transit.delta@);
                assert(s_delay.delta@.drop_last()[q] == s_delay.delta@[q]);
                if s_transit.delta@.len() > pre.delta@.len() {
                    assert(s_transit.delta@.drop_last() == pre.delta@);
                    assert(s_transit.delta@.drop_last()[q] == s_transit.delta@[q]);
                }
            }
            assert forall|q: int| 0 <= q < pre.light@.len() implies events.light@[q]
                == #[trigger] pre.light@[q] by {
                assert(events.light@.drop_last()[q] == events.light@[q]);
                assert(pre_light.light@ == pre.light@);
            }
            assert(events.delta@.subrange(0, old(events).delta@.len() as int) =~= old(
                events,
            ).delta@) by {
                assert forall|q: int| 0 <= q < old(events).delta@.len() implies events.delta@[q]
                    == #[trigger] old(events).delta@[q] by {
                    assert(pre.delta@.subrange(0, old(events).delta@.len() as int)[q]
                        == pre.delta@[q]);
                }
            }
            assert(events.light@.subrange(0, old(events).light@.len() as int) =~= old(
                events,
            ).light@) by {
                assert forall|q: int| 0 <= q < old(events).light@.len() implies events.light@[q]
                    == #[trigger] old(events).light@[q] by {
                    assert(pre.light@.subrange(0, old(events).light@.len() as int)[q]
                        == pre.light@[q]);
                }
            }
            // The new light is stamped with the trail line's list-local id,
            // and the delay sits immediately before the line.
            assert(events.light@.last() == events.light@[old(events).light@.len() + pi]);
            assert forall|q: int| 0 <= q < pi + 1 implies {
                let li = #[trigger] events.light@[old(events).light@.len() + q];
                &&& particle_light_entry_matches(
                    li,
                    p.particles@[q].prev_location,
                    p.particles@[q].location,
                    p.color@,
                )
                &&& 2 <= li.payload.id <= events.delta@.len()
                &&& particle_line_entry_matches(
                    events.delta@[li.payload.id - 1],
                    p.particles@[q].prev_location,
                    p.particles@[q].location,
                )
                &&& delay_entry_matches(events.delta@[li.payload.id - 2])
            } by {
                if q < pi {
                    assert(events.light@[old(events).light@.len() + q] == pre.light@[old(
                        events,
                    ).light@.len() + q]);
                    let li = pre.light@[old(events).light@.len() + q];
                    assert(2 <= li.payload.id <= pre.delta@.len());
                    assert(events.delta@[li.payload.id - 1] == pre.delta@[li.payload.id - 1]);
                    assert(events.delta@[li.payload.id - 2] == pre.delta@[li.payload.id - 2]);
                } else {
                    let li = events.light@[old(events).light@.len() + pi];
                    assert(li == events.light@.last());
                    assert(events.delta@ == pre_light.delta@);
                    assert(li.payload.id == pre_light.delta@.len());
                    assert(events.delta@[li.payload.id - 1] == pre_light.delta@.last());
                    assert(delay_entry_matches(events.delta@[li.payload.id - 2])) by {
                        assert(pre_light.delta@.drop_last() == s_delay.delta@);
                        assert(pre_light.delta@[pre_light.delta@.len() - 2]
                            == pre_light.delta@.drop_last()[pre_light.delta@.len() - 2]);
                        assert(s_delay.delta@[s_delay.delta@.len() - 1] == s_delay.delta@.last());
                    }
                }
            }
        }
        pi = pi + 1;
    }
    last
}

/// Generate the full, device-ready action set for one output unit: walk
/// every imported curve in order, dispatching on its kind, and accumulate
/// all motion and lighting actions on one fresh sequencer whose identifier
/// invariants hold throughout.  The contract fixes the whole output: the
/// list lengths follow the per-curve folds, and every curve's actions —
/// transits, window motions, compressed fades, their global ids and
/// barrier links — stand at their computed positions exactly as
/// `curve_entries_ok` prescribes.
pub fn generate_delta_toolpath(input: &Vec<BlenderData>) -> (r: ActionGroups)
    requires
        forall|i: int| 0 <= i < input@.len() ==> spec_curve_ok(#[trigger] input@[i]),
        spec_input_budget(input@) <= 0xFFFF_FFFF,
    ensures
        r.wf(),
        r.run@.len() == 0,
        r.delta@.len() == toolpath_motions_to(input@, input@.len() as int),
        r.light@.len() == toolpath_lights_to(input@, input@.len() as int),
        forall|i: int|
            0 <= i < input@.len() ==> #[trigger] curve_entries_ok(
                input@[i],
                r.delta@,
                r.light@,
                toolpath_motions_to(input@, i),
                toolpath_lights_to(input@, i),
                toolpath_pos_at(input@, i),
            ),
{
    let mut event_set = ActionGroups::new();
    let mut last_point = BlenderPoint3 { x: 0, y: 0, z: 0 };
    proof {
        assert(input@.skip(0) =~= input@);
    }
    let mut ci: usize = 0;
    while ci < input.len()
        invariant
            event_set.wf(),
            event_set.run@.len() == 0,
            0 <= ci <= input@.len(),
            forall|i: int| 0 <= i < input@.len() ==> spec_curve_ok(#[trigger] input@[i]),
            spec_input_budget(input@) <= 0xFFFF_FFFF,
            event_set.global_id + spec_input_budget(input@.skip(ci as int)) <= spec_input_budget(
                input@,
            ),
            event_set.delta@.len() == toolpath_motions_to(input@, ci as int),
            event_set.light@.len() == toolpath_lights_to(input@, ci as int),
            last_point == toolpath_pos_at(input@, ci as int),
            forall|i: int|
                0 <= i < ci ==> #[trigger] curve_entries_ok(
                    input@[i],
                    event_set.delta@,
                    event_set.light@,
                    toolpath_motions_to(input@, i),
                    toolpath_lights_to(input@, i),
                    toolpath_pos_at(input@, i),
                ),
            last_point.in_bounds(),
        decreases input@.len() - ci,
    {
        proof {
            lemma_input_budget_skip(input@, ci as int);
            lemma_input_budget_nonneg(input@.skip(ci as int + 1));
            assert(input@.skip(ci as int).drop_first() =~= input@.skip(ci as int + 1));
            assert(input@.skip(ci as int)[0] == input@[ci as int]);
        }
        let ghost pre_set = event_set;
        let ghost last_in = last_point;
        let ghost d0 = event_set.delta@.len() as int;
        let ghost l0 = event_set.light@.len() as int;
        let curve = &input[ci];
        proof {
            // The global id counter equals the queued-action count, so the
            // next global id of this curve is its motion/light base sum.
            assert(pre_set.global_id == d0 + l0);
        }
        match curve {
            BlenderData::PolySpline(spline) => {
                last_point = process_poly(&mut event_set, spline, last_point);
                proof {
                    let c = input@[ci as int];
                    assert(c == BlenderData::PolySpline(*spline));
                    let n = spline.points@.len() as int;
                    let t01: int = if spec_transit_needed(
                        last_in,
                        spline.points@[0].spec_bp3(),
                    ) {
                        1
                    } else {
                        0
                    };
                    let cuts = spec_cuts(spline.color@);
                    assert(event_set.delta@.len() == d0 + t01 + (n - 1));
                    assert(event_set.light@.len() == l0 + cuts.len());
                    assert(event_set.global_id == event_set.delta@.len()
                        + event_set.light@.len());
                    assert forall|idx: int| d0 + t01 <= idx < d0 + t01 + (n - 1) implies
                        poly_line_entry_matches(
                        #[trigger] event_set.delta@[idx],
                        spline.points@[idx - d0 - t01].spec_bp3(),
                        spline.points@[idx - d0 - t01 + 1].spec_bp3(),
                    ) && event_set.delta@[idx].id == idx + l0 by {
                        let j = idx - d0 - t01;
                        assert(poly_line_entry_matches(
                            event_set.delta@[event_set.delta@.len() - (n - 1) + j],
                            spline.points@[j].spec_bp3(),
                            spline.points@[j + 1].spec_bp3(),
                        ));
                        assert(event_set.delta@[event_set.delta@.len() - (n - 1) + j].id
                            == pre_set.global_id + t01 + j);
                        assert(event_set.delta@.len() - (n - 1) + j == idx);
                    }
                    assert forall|idx: int| l0 <= idx < l0 + cuts.len() implies fade_entry_core(
                        #[trigger] event_set.light@[idx],
                        d0 + t01 + (n - 1) + l0,
                        spline.color@,
                        cuts,
                        idx - l0,
                        poly_move_time(spline.points@, n - 1),
                        spline.color@.len() - 1,
                    ) && (n >= 2 ==> event_set.light@[idx].payload.id == d0 + t01 + 1) by {
                        let j = idx - l0;
                        assert(fade_entry_matches(
                            event_set.light@[l0 + j],
                            event_set.global_id - cuts.len(),
                            event_set.move_barrier_id as int,
                            spline.color@,
                            cuts,
                            j,
                            event_set.move_time as int,
                            spline.color@.len() - 1,
                        ));
                    }
                    assert(curve_entries_ok(
                        c,
                        event_set.delta@,
                        event_set.light@,
                        d0,
                        l0,
                        last_in,
                    ));
                }
            },
            BlenderData::NURBSSpline(spline) => {
                last_point = process_nurbs(&mut event_set, spline, last_point);
                proof {
                    let c = input@[ci as int];
                    assert(c == BlenderData::NURBSSpline(*spline));
                    let n = spline.points@.len() as int;
                    let t01: int = if spec_transit_needed(
                        last_in,
                        spline.points@[0].spec_bp3(),
                    ) {
                        1
                    } else {
                        0
                    };
                    let wins: int = if n >= 4 {
                        n - 3
                    } else {
                        0
                    };
                    let cuts = spec_cuts(spline.color@);
                    assert(event_set.delta@.len() == d0 + t01 + wins);
                    assert(event_set.light@.len() == l0 + cuts.len());
                    assert(event_set.global_id == event_set.delta@.len()
                        + event_set.light@.len());
                    assert forall|idx: int| d0 + t01 <= idx < d0 + t01 + wins implies
                        nurbs_segment_entry_matches(
                        #[trigger] event_set.delta@[idx],
                        spline.points@[idx - d0 - t01].spec_bp3(),
                        spline.points@[idx - d0 - t01 + 1].spec_bp3(),
                        spline.points@[idx - d0 - t01 + 2].spec_bp3(),
                        spline.points@[idx - d0 - t01 + 3].spec_bp3(),
                    ) && event_set.delta@[idx].id == idx + l0 by {
                        let j = idx - d0 - t01;
                        assert(nurbs_segment_entry_matches(
                            event_set.delta@[event_set.delta@.len() - (n - 3) + j],
                            spline.points@[j].spec_bp3(),
                            spline.points@[j + 1].spec_bp3(),
                            spline.points@[j + 2].spec_bp3(),
                            spline.points@[j + 3].spec_bp3(),
                        ));
                        assert(event_set.delta@[event_set.delta@.len() - (n - 3) + j].id
                            == pre_set.global_id + t01 + j);
                        assert(event_set.delta@.len() - (n - 3) + j == idx);
                    }
                    assert forall|idx: int| l0 <= idx < l0 + cuts.len() implies fade_entry_core(
                        #[trigger] event_set.light@[idx],
                        d0 + t01 + wins + l0,
                        spline.color@,
                        cuts,
                        idx - l0,
                        nurbs_move_time(spline.points@, wins),
                        spline.color@.len() - 1,
                    ) && (n >= 4 ==> event_set.light@[idx].payload.id == d0 + t01 + 1) by {
                        let j = idx - l0;
                        assert(fade_entry_matches(
                            event_set.light@[l0 + j],
                            event_set.global_id - cuts.len(),
                            event_set.move_barrier_id as int,
                            spline.color@,
                            cuts,
                            j,
                            event_set.move_time as int,
                            spline.color@.len() - 1,
                        ));
                    }
                    assert(curve_entries_ok(
                        c,
                        event_set.delta@,
                        event_set.light@,
                        d0,
                        l0,
                        last_in,
                    ));
                }
            },
            BlenderData::Particles(p) => {
                last_point = process_particles(&mut event_set, p, last_point);
                proof {
                    assert(curve_entries_ok(
                        input@[ci as int],
                        event_set.delta@,
                        event_set.light@,
                        d0,
                        l0,
                        last_in,
                    )) by {
                        assert forall|idx: int| l0 <= idx < l0 + p.particles@.len() implies {
                            let li = #[trigger] event_set.light@[idx];
                            &&& particle_light_entry_matches(
                                li,
                                p.particles@[idx - l0].prev_location,
                                p.particles@[idx - l0].location,
                                p.color@,
                            )
                            &&& 2 <= li.payload.id <= d0 + particles_motion_count(
                                p.particles@,
                                last_in,
                            )
                            &&& particle_line_entry_matches(
                                event_set.delta@[li.payload.id - 1],
                                p.particles@[idx - l0].prev_location,
                                p.particles@[idx - l0].location,
                            )
                            &&& delay_entry_matches(event_set.delta@[li.payload.id - 2])
                        } by {
                            let q = idx - l0;
                            assert(particle_light_entry_matches(
                                event_set.light@[l0 + q],
                                p.particles@[q].prev_location,
                                p.particles@[q].location,
                                p.color@,
                            ));
                        }
                    }
                }
            },
        }
        proof {
            // Fold the processed curve into the prefix accounting.
            assert(toolpath_motions_to(input@, ci as int + 1) == toolpath_motions_to(
                input@,
                ci as int,
            ) + curve_motion_count(input@[ci as int], toolpath_pos_at(input@, ci as int)));
            assert(toolpath_lights_to(input@, ci as int + 1) == toolpath_lights_to(
                input@,
                ci as int,
            ) + curve_light_count(input@[ci as int]));
            assert(toolpath_pos_at(input@, ci as int + 1) == curve_end_point(
                input@[ci as int],
                toolpath_pos_at(input@, ci as int),
            ));
            // Everything emitted before this curve is untouched, so earlier
            // curves' entry descriptions carry over to the grown lists.
            lemma_curve_counts_nonneg(input@[ci as int], last_in);
            assert forall|q: int| 0 <= q < d0 implies #[trigger] event_set.delta@[q]
                == pre_set.delta@[q] by {
                assert(event_set.delta@.subrange(0, d0)[q] == event_set.delta@[q]);
            }
            assert forall|q: int| 0 <= q < l0 implies #[trigger] event_set.light@[q]
                == pre_set.light@[q] by {
                assert(event_set.light@.subrange(0, l0)[q] == event_set.light@[q]);
            }
            assert forall|i: int| 0 <= i < ci as int + 1 implies #[trigger] curve_entries_ok(
                input@[i],
                event_set.delta@,
                event_set.light@,
                toolpath_motions_to(input@, i),
                toolpath_lights_to(input@, i),
                toolpath_pos_at(input@, i),
            ) by {
                if i < ci as int {
                    lemma_toolpath_prefix_monotone(input@, 0, i);
                    assert(toolpath_motions_to(input@, i + 1) == toolpath_motions_to(input@, i)
                        + curve_motion_count(input@[i], toolpath_pos_at(input@, i)));
                    assert(toolpath_lights_to(input@, i + 1) == toolpath_lights_to(input@, i)
                        + curve_light_count(input@[i]));
                    lemma_toolpath_prefix_monotone(input@, i + 1, ci as int);
                    lemma_curve_entries_preserved(
                        input@[i],
                        pre_set.delta@,
                        pre_set.light@,
                        event_set.delta@,
                        event_set.light@,
                        toolpath_motions_to(input@, i),
                        toolpath_lights_to(input@, i),
                        toolpath_pos_at(input@, i),
                    );
                }
            }
        }
        ci = ci + 1;
    }
    event_set
}

/// How many preview vertices one curve contributes: both endpoints of every
/// polyline window; other kinds contribute a two-point placeholder.
pub open spec fn spec_viewer_points_of(c: BlenderData) -> int {
    match c {
        BlenderData::PolySpline(p) => 2 * (p.points@.len() as int - 1),
        BlenderData::NURBSSpline(n) => 2,
        BlenderData::Particles(ps) => 2,
    }
}

/// How many preview colors one curve contributes: its whole gradient for a
/// polyline; other kinds contribute a two-stop gray placeholder.
pub open spec fn spec_viewer_colors_of(c: BlenderData) -> int {
    match c {
        BlenderData::PolySpline(p) => p.color@.len() as int,
        BlenderData::NURBSSpline(n) => 2,
        BlenderData::Particles(ps) => 2,
    }
}

/// Total preview vertices of an input.
pub open spec fn spec_viewer_points_count(input: Seq<BlenderData>) -> int
    decreases input.len(),
{
    if input.len() == 0 {
        0
    } else {
        spec_viewer_points_of(input[0]) + spec_viewer_points_count(input.drop_first())
    }
}

/// Total preview colors of an input.
pub open spec fn spec_viewer_colors_count(input: Seq<BlenderData>) -> int
    decreases input.len(),
{
    if input.len() == 0 {
        0
    } else {
        spec_viewer_colors_of(input[0]) + spec_viewer_colors_count(input.drop_first())
    }
}

proof fn lemma_viewer_counts_skip(input: Seq<BlenderData>, i: int)
    requires
        0 <= i < input.len(),
    ensures
        spec_viewer_points_count(input.skip(i)) == spec_viewer_points_of(input[i])
            + spec_viewer_points_count(input.skip(i + 1)),
        spec_viewer_colors_count(input.skip(i)) == spec_viewer_colors_of(input[i])
            + spec_viewer_colors_count(input.skip(i + 1)),
{
    assert(input.skip(i).drop_first() =~= input.skip(i + 1));
    assert(input.skip(i)[0] == input[i]);
}

/// Preview vertices contributed by the first `i` curves of an input.
pub open spec fn viewer_points_to(input: Seq<BlenderData>, i: int) -> int
    decreases i,
{
    if i <= 0 {
        0
    } else {
        viewer_points_to(input, i - 1) + spec_viewer_points_of(input[i - 1])
    }
}

/// Preview colors contributed by the first `i` curves of an input.
pub open spec fn viewer_colors_to(input: Seq<BlenderData>, i: int) -> int
    decreases i,
{
    if i <= 0 {
        0
    } else {
        viewer_colors_to(input, i - 1) + spec_viewer_colors_of(input[i - 1])
    }
}

/// The mid-gray placeholder stop emitted for curve kinds without a preview
/// renderer.
pub open spec fn spec_preview_gray() -> HslColor {
    HslColor {
        hue_mdeg: 0u32,
        sat_mpct: 0u32,
        light_mpct: 50_000u32,
        proj_a: 0i64,
        proj_b: 0i64,
        proj_c: 50_000i64,
    }
}

/// The preview entries one curve contributes, starting at vertex position
/// `p0` and color position `c0`: both endpoints of every polyline window
/// (the `w` term dropped) and the polyline's whole gradient, or a
/// degenerate pair of origin vertices and mid-gray stops for the other
/// kinds.
pub open spec fn viewer_entries_ok(
    c: BlenderData,
    points: Seq<(i64, i64, i64)>,
    colors: Seq<HslColor>,
    p0: int,
    c0: int,
) -> bool {
    match c {
        BlenderData::PolySpline(p) => {
            &&& (forall|j: int|
                0 <= j < p.points@.len() - 1 ==> (#[trigger] points[p0 + 2 * j]) == spec_coords(
                    p.points@[j].spec_bp3(),
                ))
            &&& (forall|j: int|
                0 <= j < p.points@.len() - 1 ==> (#[trigger] points[p0 + 2 * j + 1])
                    == spec_coords(p.points@[j + 1].spec_bp3()))
            &&& (forall|k: int|
                0 <= k < p.color@.len() ==> (#[trigger] colors[c0 + k]) == p.color@[k])
        },
        BlenderData::NURBSSpline(sp) => {
            &&& points[p0] == (0i64, 0i64, 0i64) && points[p0 + 1] == (0i64, 0i64, 0i64)
            &&& colors[c0] == spec_preview_gray() && colors[c0 + 1] == spec_preview_gray()
        },
        BlenderData::Particles(ps) => {
            &&& points[p0] == (0i64, 0i64, 0i64) && points[p0 + 1] == (0i64, 0i64, 0i64)
            &&& colors[c0] == spec_preview_gray() && colors[c0 + 1] == spec_preview_gray()
        },
    }
}

proof fn lemma_viewer_counts_nonneg(c: BlenderData)
    requires
        spec_curve_ok(c),
    ensures
        spec_viewer_points_of(c) >= 0,
        spec_viewer_colors_of(c) >= 0,
{
}

proof fn lemma_viewer_prefix_monotone(input: Seq<BlenderData>, i: int, j: int)
    requires
        0 <= i <= j <= input.len(),
        forall|k: int| 0 <= k < input.len() ==> spec_curve_ok(#[trigger] input[k]),
    ensures
        viewer_points_to(input, i) <= viewer_points_to(input, j),
        viewer_colors_to(input, i) <= viewer_colors_to(input, j),
    decreases j - i,
{
    if i < j {
        lemma_viewer_prefix_monotone(input, i, j - 1);
        lemma_viewer_counts_nonneg(input[j - 1]);
    }
}

/// A curve's preview entries only read the positions the curve itself
/// wrote, so they survive later append-only growth of the two lists.
proof fn lemma_viewer_entries_preserved(
    c: BlenderData,
    points1: Seq<(i64, i64, i64)>,
    colors1: Seq<HslColor>,
    points2: Seq<(i64, i64, i64)>,
    colors2: Seq<HslColor>,
    p0: int,
    c0: int,
)
    requires
        spec_curve_ok(c),
        viewer_entries_ok(c, points1, colors1, p0, c0),
        0 <= p0,
        0 <= c0,
        p0 + spec_viewer_points_of(c) <= points1.len(),
        c0 + spec_viewer_colors_of(c) <= colors1.len(),
        forall|q: int| 0 <= q < points1.len() ==> #[trigger] points2[q] == points1[q],
        forall|q: int| 0 <= q < colors1.len() ==> #[trigger] colors2[q] == colors1[q],
    ensures
        viewer_entries_ok(c, points2, colors2, p0, c0),
{
    match c {
        BlenderData::PolySpline(p) => {
            assert forall|j: int| 0 <= j < p.points@.len() - 1 implies (#[trigger] points2[p0 + 2
                * j]) == spec_coords(p.points@[j].spec_bp3()) by {
                assert(points2[p0 + 2 * j] == points1[p0 + 2 * j]);
            }
            assert forall|j: int| 0 <= j < p.points@.len() - 1 implies (#[trigger] points2[p0 + 2
                * j + 1]) == spec_coords(p.points@[j + 1].spec_bp3()) by {
                assert(points2[p0 + 2 * j + 1] == points1[p0 + 2 * j + 1]);
            }
            assert forall|k: int| 0 <= k < p.color@.len() implies (#[trigger] colors2[c0 + k])
                == p.color@[k] by {
                assert(colors2[c0 + k] == colors1[c0 + k]);
            }
        },
        BlenderData::NURBSSpline(_) => {
            assert(points2[p0] == points1[p0] && points2[p0 + 1] == points1[p0 + 1]);
            assert(colors2[c0] == colors1[c0] && colors2[c0 + 1] == colors1[c0 + 1]);
        },
        BlenderData::Particles(_) => {
            assert(points2[p0] == points1[p0] && points2[p0 + 1] == points1[p0 + 1]);
            assert(colors2[c0] == colors1[c0] && colors2[c0 + 1] == colors1[c0 + 1]);
        },
    }
}

/// Build the viewer preview for an input: line segments for every polyline
/// window, and the matching color strip.  Curve kinds without a preview
/// renderer contribute a degenerate two-point placeholder segment and a
/// mid-gray color pair.  The contract fixes every emitted vertex and color
/// at its computed position.
pub fn generate_viewer_data(input: &Vec<BlenderData>) -> (r: (
    Vec<(i64, i64, i64)>,
    Vec<HslColor>,
))
    requires
        forall|i: int| 0 <= i < input@.len() ==> spec_curve_ok(#[trigger] input@[i]),
    ensures
        r.0@.len() == spec_viewer_points_count(input@),
        r.1@.len() == spec_viewer_colors_count(input@),
        forall|i: int|
            0 <= i < input@.len() ==> #[trigger] viewer_entries_ok(
                input@[i],
                r.0@,
                r.1@,
                viewer_points_to(input@, i),
                viewer_colors_to(input@, i),
            ),
{
    let mut poly_points: Vec<(i64, i64, i64)> = Vec::new();
    let mut uv_colors: Vec<HslColor> = Vec::new();
    proof {
        assert(input@.skip(0) =~= input@);
    }
    let mut ci: usize = 0;
    while ci < input.len()
        invariant
            0 <= ci <= input@.len(),
            forall|i: int| 0 <= i < input@.len() ==> spec_curve_ok(#[trigger] input@[i]),
            poly_points@.len() + spec_viewer_points_count(input@.skip(ci as int))
                == spec_viewer_points_count(input@),
            uv_colors@.len() + spec_viewer_colors_count(input@.skip(ci as int))
                == spec_viewer_colors_count(input@),
            poly_points@.len() == viewer_points_to(input@, ci as int),
            uv_colors@.len() == viewer_colors_to(input@, ci as int),
            forall|i: int|
                0 <= i < ci ==> #[trigger] viewer_entries_ok(
                    input@[i],
                    poly_points@,
                    uv_colors@,
                    viewer_points_to(input@, i),
                    viewer_colors_to(input@, i),
                ),
        decreases input@.len() - ci,
    {
        proof {
            lemma_viewer_counts_skip(input@, ci as int);
        }
        let ghost pre_points = poly_points@;
        let ghost pre_colors = uv_colors@;
        let ghost p0 = poly_points@.len() as int;
        let ghost c0 = uv_colors@.len() as int;
        let curve = &input[ci];
        match curve {
            BlenderData::PolySpline(s) => {
                // The segments that follow the line.
                let ghost pp0 = poly_points@.len() as int;
                let segs = s.points.len() - 1;
                let mut j: usize = 0;
                while j < segs
                    invariant
                        0 <= j <= segs,
                        segs == s.points@.len() - 1,
                        forall|i: int|
                            0 <= i < s.points@.len() ==> (#[trigger] s.points@[i]).in_bounds(),
                        poly_points@.len() == pp0 + 2 * j,
                        poly_points@.subrange(0, pp0) == pre_points,
                        pre_points.len() == pp0,
                        uv_colors@ == pre_colors,
                        forall|k: int|
                            0 <= k < j ==> (#[trigger] poly_points@[pp0 + 2 * k]) == spec_coords(
                                s.points@[k].spec_bp3(),
                            ),
                        forall|k: int|
                            0 <= k < j ==> (#[trigger] poly_points@[pp0 + 2 * k + 1])
                                == spec_coords(s.points@[k + 1].spec_bp3()),
                    decreases segs - j,
                {
                    let ghost before = poly_points@;
                    let a = s.points[j].into_bp3();
                    let b = s.points[j + 1].into_bp3();
                    let geom: Vec<BlenderPoint3> = vec![a, b];
                    proof {
                        assert(geom@ =~= seq![a, b]);
                    }
                    let vs = vertex_from_spline(1, geom.as_slice());
                    let va = vs[0];
                    let vb = vs[1];
                    poly_points.push(va);
                    poly_points.push(vb);
                    proof {
                        assert(poly_points@ =~= before.push(va).push(vb));
                        assert forall|q: int| 0 <= q < before.len() implies #[trigger] poly_points@[q]
                            == before[q] by {
                            assert(before.push(va).push(vb)[q] == before.push(va)[q]);
                            assert(before.push(va)[q] == before[q]);
                        }
                        assert(poly_points@.subrange(0, pp0) =~= pre_points);
                        assert(poly_points@[pp0 + 2 * j] == va);
                        assert(poly_points@[pp0 + 2 * j + 1] == vb);
                        assert(va == spec_coords(s.points@[j as int].spec_bp3()));
                        assert(vb == spec_coords(s.points@[j as int + 1].spec_bp3()));
                        assert forall|k: int| 0 <= k < j + 1 implies (#[trigger] poly_points@[pp0 + 2
                            * k]) == spec_coords(s.points@[k].spec_bp3()) by {
                            if k < j {
                                assert(poly_points@[pp0 + 2 * k] == before[pp0 + 2 * k]);
                            }
                        }
                        assert forall|k: int| 0 <= k < j + 1 implies (#[trigger] poly_points@[pp0 + 2
                            * k + 1]) == spec_coords(s.points@[k + 1].spec_bp3()) by {
                            if k < j {
                                assert(poly_points@[pp0 + 2 * k + 1] == before[pp0 + 2 * k + 1]);
                            }
                        }
                    }
                    j = j + 1;
                }
                let ghost colors_before = uv_colors@;
                uv_colors.extend_from_slice(s.color.as_slice());
                proof {
                    assert(uv_colors@ == colors_before + s.color@);
                    assert(colors_before == pre_colors);
                    assert forall|k: int| 0 <= k < s.color@.len() implies (#[trigger] uv_colors@[c0
                        + k]) == s.color@[k] by {
                        assert((colors_before + s.color@)[c0 + k] == s.color@[k]);
                    }
                    assert(viewer_entries_ok(
                        input@[ci as int],
                        poly_points@,
                        uv_colors@,
                        p0,
                        c0,
                    ));
                }
            },
            BlenderData::NURBSSpline(_) => {
                // No curved preview: a degenerate placeholder segment.
                poly_points.push((0, 0, 0));
                poly_points.push((0, 0, 0));
                uv_colors.push(HslColor::gray(50_000));
                uv_colors.push(HslColor::gray(50_000));
                proof {
                    assert(viewer_entries_ok(
                        input@[ci as int],
                        poly_points@,
                        uv_colors@,
                        p0,
                        c0,
                    ));
                }
            },
            BlenderData::Particles(_) => {
                // No particle preview: a degenerate placeholder segment.
                poly_points.push((0, 0, 0));
                poly_points.push((0, 0, 0));
                uv_colors.push(HslColor::gray(50_000));
                uv_colors.push(HslColor::gray(50_000));
                proof {
                    assert(viewer_entries_ok(
                        input@[ci as int],
                        poly_points@,
                        uv_colors@,
                        p0,
                        c0,
                    ));
                }
            },
        }
        proof {
            assert(viewer_points_to(input@, ci as int + 1) == viewer_points_to(input@, ci as int)
                + spec_viewer_points_of(input@[ci as int]));
            assert(viewer_colors_to(input@, ci as int + 1) == viewer_colors_to(input@, ci as int)
                + spec_viewer_colors_of(input@[ci as int]));
            assert forall|q: int| 0 <= q < p0 implies #[trigger] poly_points@[q] == pre_points[q]
                by {
                assert(poly_points@.subrange(0, p0)[q] == poly_points@[q]);
            }
            assert forall|q: int| 0 <= q < c0 implies #[trigger] uv_colors@[q] == pre_colors[q]
                by {
                assert(uv_colors@.subrange(0, c0)[q] == uv_colors@[q]);
            }
            assert forall|i: int| 0 <= i < ci as int + 1 implies #[trigger] viewer_entries_ok(
                input@[i],
                poly_points@,
                uv_colors@,
                viewer_points_to(input@, i),
                viewer_colors_to(input@, i),
            ) by {
                if i < ci as int {
                    lemma_viewer_prefix_monotone(input@, 0, i);
                    assert(viewer_points_to(input@, i + 1) == viewer_points_to(input@, i)
                        + spec_viewer_points_of(input@[i]));
                    assert(viewer_colors_to(input@, i + 1) == viewer_colors_to(input@, i)
                        + spec_viewer_colors_of(input@[i]));
                    lemma_viewer_prefix_monotone(input@, i + 1, ci as int);
                    lemma_viewer_entries_preserved(
                        input@[i],
                        pre_points,
                        pre_colors,
                        poly_points@,
                        uv_colors@,
                        viewer_points_to(input@, i),
                        viewer_colors_to(input@, i),
                    );
                }
            }
        }
        ci = ci + 1;
    }
    (poly_points, uv_colors)
}

/// The homing move queued ahead of everything else when a unit begins at a
/// known start position: a 2.5 s point-transit carrying the first global
/// and list-local id.
pub fn generate_preparation_movement(start_position: (i64, i64, i64)) -> (r:
    crate::export_types::DeltaAction)
    ensures
        r.id == 1,
        r.action@ == "queue_movement"@,
        r.payload.id == 1,
        r.payload.motion_type == MotionInterpolationType::PointTransit,
        r.payload.reference == MotionReferenceFrame::Absolute,
        r.payload.duration == 2500,
        r.payload.points@ == seq![start_position],
{
    let home_at_position: Vec<(i64, i64, i64)> = vec![start_position];
    proof {
        assert(home_at_position@ =~= seq![start_position]);
    }
    crate::export_types::DeltaAction {
        id: 1,
        action: String::from_str("queue_movement"),
        payload: Motion {
            id: 1,
            reference: MotionReferenceFrame::Absolute,
            motion_type: MotionInterpolationType::PointTransit,
            duration: 2500,
            points: home_at_position,
        },
    }
}

} // verus!
