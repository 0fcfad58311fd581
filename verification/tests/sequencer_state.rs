use vortex::export_types::{
    generate_header, next_power_two, ActionGroups, Fade, LightAnimationType, Motion,
    MotionInterpolationType, MotionReferenceFrame,
};

fn motion(kind: MotionInterpolationType, duration: u32) -> Motion {
    Motion {
        motion_type: kind,
        reference: MotionReferenceFrame::Absolute,
        id: 0,
        duration,
        points: vec![(0, 0, 0), (1, 0, 0)],
    }
}

fn fade(duration: u32) -> Fade {
    Fade {
        animation_type: LightAnimationType::LinearFade,
        id: 7,
        duration,
        points: vec![(0, 0, 0), (1_000_000, 1_000_000, 1_000_000)],
    }
}

#[test]
fn fresh_sequencer_is_empty() {
    let g = ActionGroups::new();
    assert_eq!(g.delta.len(), 0);
    assert_eq!(g.light.len(), 0);
    assert_eq!(g.run.len(), 0);
    assert_eq!(g.get_next_global_id(), 0);
    assert_eq!(g.get_movement_duration(), 0);
}

#[test]
fn global_ids_are_unique_and_increasing_across_lists() {
    let mut g = ActionGroups::new();
    g.add_delta_action(motion(MotionInterpolationType::Line, 100));
    g.add_light_action(fade(100));
    g.add_generic_action("sync".to_string(), "payload".to_string());
    g.add_delta_action(motion(MotionInterpolationType::Line, 50));
    g.add_light_action(fade(50));
    g.add_delta_action(motion(MotionInterpolationType::PointTransit, 500));

    // Collect every global id across the union of the three lists.
    let mut ids: Vec<u32> = Vec::new();
    ids.extend(g.delta.iter().map(|a| a.id));
    ids.extend(g.light.iter().map(|a| a.id));
    ids.extend(g.run.iter().map(|a| a.id));
    assert_eq!(ids.len(), 6);
    let mut seen = ids.clone();
    seen.sort_unstable();
    seen.dedup();
    assert_eq!(seen.len(), 6, "global ids must be pairwise distinct");
    assert_eq!(seen, vec![0, 1, 2, 3, 4, 5]);

    // Within each list they are strictly increasing in emission order.
    assert!(g.delta.windows(2).all(|w| w[0].id < w[1].id));
    assert!(g.light.windows(2).all(|w| w[0].id < w[1].id));
    assert_eq!(g.get_next_global_id(), 6);
}

#[test]
fn motions_carry_one_based_list_local_ids() {
    let mut g = ActionGroups::new();
    g.add_delta_action(motion(MotionInterpolationType::Line, 10));
    g.add_light_action(fade(10));
    g.add_delta_action(motion(MotionInterpolationType::Line, 10));
    g.add_delta_action(motion(MotionInterpolationType::Line, 10));
    assert_eq!(g.delta[0].payload.id, 1);
    assert_eq!(g.delta[1].payload.id, 2);
    assert_eq!(g.delta[2].payload.id, 3);
}

#[test]
fn barrier_points_at_first_motion_after_reset() {
    let mut g = ActionGroups::new();
    // The barrier is armed initially: the very first motion takes it.
    g.add_delta_action(motion(MotionInterpolationType::Line, 10));
    g.add_light_action(fade(10));
    assert_eq!(g.light[0].payload.id, 1);

    // Later motions do not move the barrier...
    g.add_delta_action(motion(MotionInterpolationType::Line, 10));
    g.add_light_action(fade(10));
    assert_eq!(g.light[1].payload.id, 1);

    // ...until a reset re-arms it for the next motion group.
    g.reset_barrier_id();
    g.add_delta_action(motion(MotionInterpolationType::Line, 10));
    g.add_light_action(fade(10));
    assert_eq!(g.light[2].payload.id, 3);

    // Lights added before any motion reference barrier zero.
    let mut h = ActionGroups::new();
    h.add_light_action(fade(10));
    assert_eq!(h.light[0].payload.id, 0);
}

#[test]
fn movement_time_counts_only_substantive_motions() {
    let mut g = ActionGroups::new();
    g.add_delta_action(motion(MotionInterpolationType::PointTransit, 500));
    assert_eq!(g.get_movement_duration(), 0);
    g.add_delta_action(motion(MotionInterpolationType::BezierCubic, 700));
    assert_eq!(g.get_movement_duration(), 0);
    g.add_delta_action(motion(MotionInterpolationType::Line, 120));
    assert_eq!(g.get_movement_duration(), 120);
    g.add_delta_action(motion(MotionInterpolationType::CatmullSpline, 80));
    assert_eq!(g.get_movement_duration(), 200);
    g.add_delta_action(motion(MotionInterpolationType::BezierQuadratic, 30));
    assert_eq!(g.get_movement_duration(), 230);
    g.reset_barrier_id();
    assert_eq!(g.get_movement_duration(), 0);
}

#[test]
fn actions_carry_their_queue_names() {
    let mut g = ActionGroups::new();
    g.add_delta_action(motion(MotionInterpolationType::Line, 10));
    g.add_light_action(fade(10));
    g.add_generic_action("trigger_capture".to_string(), "{}".to_string());
    assert_eq!(g.delta[0].action, "queue_movement");
    assert_eq!(g.light[0].action, "queue_light");
    assert_eq!(g.run[0].action, "trigger_capture");
    assert_eq!(g.run[0].payload, "{}");
    assert_eq!(g.run[0].wait_for, 0);
}

#[test]
fn light_payload_keeps_caller_fields_but_not_id() {
    let mut g = ActionGroups::new();
    g.add_light_action(fade(42));
    let queued = &g.light[0].payload;
    // The caller's payload id is replaced by the barrier id.
    assert_eq!(queued.id, 0);
    assert_eq!(queued.duration, 42);
    assert_eq!(queued.animation_type, LightAnimationType::LinearFade);
    assert_eq!(queued.points, vec![(0, 0, 0), (1_000_000, 1_000_000, 1_000_000)]);
}

#[test]
fn dark_payload_is_constant_black() {
    let d = Fade::dark_for_duration(321);
    assert_eq!(d.animation_type, LightAnimationType::ConstantOn);
    assert_eq!(d.id, 0);
    assert_eq!(d.duration, 321);
    assert_eq!(d.points, vec![(0, 0, 0), (0, 0, 0)]);
}

#[test]
fn wire_codes_match_the_device_protocol() {
    assert_eq!(MotionInterpolationType::PointTransit.wire_code(), 0);
    assert_eq!(MotionInterpolationType::Line.wire_code(), 1);
    assert_eq!(MotionInterpolationType::CatmullSpline.wire_code(), 2);
    assert_eq!(MotionInterpolationType::BezierQuadratic.wire_code(), 3);
    assert_eq!(MotionInterpolationType::BezierCubic.wire_code(), 4);
    assert_eq!(MotionReferenceFrame::Absolute.wire_code(), 0);
    assert_eq!(MotionReferenceFrame::Relative.wire_code(), 1);
    assert_eq!(LightAnimationType::ConstantOn.wire_code(), 0);
    assert_eq!(LightAnimationType::LinearFade.wire_code(), 1);
}

#[test]
fn header_carries_title_and_format_version() {
    let h = generate_header("VortexFile".to_string());
    assert_eq!(h.name, "VortexFile");
    assert_eq!(h.format_version, "0.0.1");
}

#[test]
fn next_power_two_rounds_up_and_saturates() {
    assert_eq!(next_power_two(0), 8);
    assert_eq!(next_power_two(7), 8);
    assert_eq!(next_power_two(8), 16);
    assert_eq!(next_power_two(100), 128);
    assert_eq!(next_power_two(4095), 4096);
    assert_eq!(next_power_two(4096), 4096);
    assert_eq!(next_power_two(u32::MAX), 4096);
}

#[test]
fn filenames_are_lowercased_and_stripped() {
    assert_eq!(
        vortex::naming::format_filename("My Collection", "toolpath.json"),
        "mycollection_toolpath.json"
    );
    assert_eq!(vortex::naming::format_filename("", "uv.png"), "_uv.png");
    assert_eq!(
        vortex::naming::format_filename("A\tB C", "vertices.json"),
        "abc_vertices.json"
    );
}
