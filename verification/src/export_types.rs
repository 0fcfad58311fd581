//! The command stream consumed by the motion device: motion, lighting and
//! generic actions, and the `ActionGroups` accumulator that assigns every
//! action a globally unique, strictly increasing identifier, tracks the
//! accumulated substantive movement time, and ties lighting actions to their
//! motion group through a barrier identifier.

use vstd::prelude::*;
use vstd::string::StringExecFns;

verus! {

/// How a motion's waypoints are interpreted by the device.
#[derive(Clone, Copy, Debug, PartialEq, Eq, Structural)]
pub enum MotionInterpolationType {
    /// A direct transit to a single point.
    PointTransit,
    /// A straight line between two points.
    Line,
    /// A Catmull-Rom segment over four control points.
    CatmullSpline,
    /// A quadratic Bezier over three control points.
    BezierQuadratic,
    /// A cubic Bezier over four control points.
    BezierCubic,
}

impl MotionInterpolationType {
    /// The numeric tag this kind carries on the wire.
    pub fn wire_code(&self) -> (r: u8)
        ensures
            r == match *self {
                MotionInterpolationType::PointTransit => 0u8,
                MotionInterpolationType::Line => 1u8,
                MotionInterpolationType::CatmullSpline => 2u8,
                MotionInterpolationType::BezierQuadratic => 3u8,
                MotionInterpolationType::BezierCubic => 4u8,
            },
    {
        match *self {
            MotionInterpolationType::PointTransit => 0,
            MotionInterpolationType::Line => 1,
            MotionInterpolationType::CatmullSpline => 2,
            MotionInterpolationType::BezierQuadratic => 3,
            MotionInterpolationType::BezierCubic => 4,
        }
    }
}

/// The reference frame of a motion's waypoints.
#[derive(Clone, Copy, Debug, PartialEq, Eq, Structural)]
pub enum MotionReferenceFrame {
    /// Coordinates are absolute machine positions.
    Absolute,
    /// Coordinates are relative to the current position.
    Relative,
}

impl MotionReferenceFrame {
    /// The numeric tag this frame carries on the wire.
    pub fn wire_code(&self) -> (r: u8)
        ensures
            r == match *self {
                MotionReferenceFrame::Absolute => 0u8,
                MotionReferenceFrame::Relative => 1u8,
            },
    {
        match *self {
            MotionReferenceFrame::Absolute => 0,
            MotionReferenceFrame::Relative => 1,
        }
    }
}

/// How a light payload animates between its color points.
#[derive(Clone, Copy, Debug, PartialEq, Eq, Structural)]
pub enum LightAnimationType {
    /// Hold the first color for the whole duration.
    ConstantOn,
    /// Fade linearly from the first color to the last.
    LinearFade,
}

impl LightAnimationType {
    /// The numeric tag this animation carries on the wire.
    pub fn wire_code(&self) -> (r: u8)
        ensures
            r == match *self {
                LightAnimationType::ConstantOn => 0u8,
                LightAnimationType::LinearFade => 1u8,
            },
    {
        match *self {
            LightAnimationType::ConstantOn => 0,
            LightAnimationType::LinearFade => 1,
        }
    }
}

/// One discrete move command: an interpolation kind, a reference frame, a
/// list-local id, a duration in whole milliseconds, and the waypoints (in
/// integer millimeters) the kind calls for.
#[derive(Clone, Debug)]
pub struct Motion {
    pub motion_type: MotionInterpolationType,
    pub reference: MotionReferenceFrame,
    pub id: u32,
    pub duration: u32,
    pub points: Vec<(i64, i64, i64)>,
}

/// One discrete lighting command: an animation kind, the barrier id of the
/// motion group it illuminates, a duration, and the color endpoints as
/// unit-interval triples in parts per million.
#[derive(Clone, Debug)]
pub struct Fade {
    pub animation_type: LightAnimationType,
    pub id: u32,
    pub duration: u32,
    pub points: Vec<(u32, u32, u32)>,
}

impl Fade {
    /// A lights-off payload spanning `duration`: constant black.
    pub fn dark_for_duration(duration: u32) -> (r: Fade)
        ensures
            r.animation_type == LightAnimationType::ConstantOn,
            r.id == 0,
            r.duration == duration,
            r.points@ == seq![(0u32, 0u32, 0u32), (0u32, 0u32, 0u32)],
    {
        let points: Vec<(u32, u32, u32)> = vec![(0, 0, 0), (0, 0, 0)];
        proof {
            assert(points@ =~= seq![(0u32, 0u32, 0u32), (0u32, 0u32, 0u32)]);
        }
        Fade { animation_type: LightAnimationType::ConstantOn, id: 0, duration, points }
    }
}

/// A queued motion with its global id.
#[derive(Clone, Debug)]
pub struct DeltaAction {
    pub id: u32,
    pub action: String,
    pub payload: Motion,
}

/// A queued light command with its global id.
#[derive(Clone, Debug)]
pub struct LightAction {
    pub id: u32,
    pub action: String,
    pub payload: Fade,
    pub comment: String,
}

/// A queued auxiliary step with its global id.
#[derive(Clone, Debug)]
pub struct GenericAction {
    pub id: u32,
    pub action: String,
    pub payload: String,
    pub comment: String,
    pub wait_for: u32,
}

/// Header of an exported command document.
#[derive(Clone, Debug)]
pub struct EventMetadata {
    pub name: String,
    pub format_version: String,
}

/// A complete export document: a header and the per-unit action groups.
#[derive(Clone, Debug)]
pub struct DeltaEvents {
    pub metadata: EventMetadata,
    pub actions: Vec<ActionGroups>,
}

/// Build the header carried by every exported document.
pub fn generate_header(title: String) -> (r: EventMetadata)
    ensures
        r.name@ == title@,
        r.format_version@ == "0.0.1"@,
{
    EventMetadata { name: title, format_version: String::from_str("0.0.1") }
}

/// Substantive motions are the ones whose duration counts toward the
/// movement-time accumulator: everything but transits and the Bezier
/// shaping moves that merely smooth a transit.
pub open spec fn spec_substantive(t: MotionInterpolationType) -> bool {
    t != MotionInterpolationType::PointTransit && t != MotionInterpolationType::BezierCubic
}

/// The movement-time accumulator after adding a motion of kind `t` and
/// duration `d` to a state carrying `acc`: substantive durations accumulate
/// (saturating at the widest representable time), others leave it alone.
pub open spec fn spec_accumulate(acc: int, t: MotionInterpolationType, d: int) -> int {
    if spec_substantive(t) {
        if acc + d > 0xFFFF_FFFF {
            0xFFFF_FFFF
        } else {
            acc + d
        }
    } else {
        acc
    }
}

/// The stateful accumulator for one output unit: three ordered action lists
/// plus the sequencing bookkeeping.  Created empty per unit, mutated only
/// through the three add-operations and the barrier reset, and never shared
/// across units.
#[derive(Clone, Debug)]
pub struct ActionGroups {
    /// Queued motions, in emission order.
    pub delta: Vec<DeltaAction>,
    /// Queued light commands, in emission order.
    pub light: Vec<LightAction>,
    /// Queued auxiliary steps, in emission order.
    pub run: Vec<GenericAction>,
    /// Next global id: all three lists share one strictly increasing id
    /// space, because the wire format does not guarantee array order and
    /// receivers reconstruct execution order from these ids alone.
    pub global_id: u32,
    /// Accumulated duration of substantive motions since the last barrier
    /// reset, in milliseconds.
    pub move_time: u32,
    /// List-local id of the first motion of the current motion group; light
    /// actions are stamped with it.
    pub move_barrier_id: u32,
    /// Whether the next motion added starts a new group and becomes the
    /// barrier.
    pub move_barrier_reset: bool,
}

/// Some queued action of `g` — motion, light or generic — carries the
/// global id `v`.
pub open spec fn spec_id_assigned(g: ActionGroups, v: int) -> bool {
    ||| exists|i: int| 0 <= i < g.delta@.len() && (#[trigger] g.delta@[i]).id == v
    ||| exists|i: int| 0 <= i < g.light@.len() && (#[trigger] g.light@[i]).id == v
    ||| exists|i: int| 0 <= i < g.run@.len() && (#[trigger] g.run@[i]).id == v
}

/// An assigned id stays assigned when the three lists are unchanged.
proof fn lemma_id_assigned_same_lists(g0: ActionGroups, g1: ActionGroups, v: int)
    requires
        spec_id_assigned(g0, v),
        g1.delta@ == g0.delta@,
        g1.light@ == g0.light@,
        g1.run@ == g0.run@,
    ensures
        spec_id_assigned(g1, v),
{
    if exists|i: int| 0 <= i < g0.delta@.len() && (#[trigger] g0.delta@[i]).id == v {
        let i = choose|i: int| 0 <= i < g0.delta@.len() && (#[trigger] g0.delta@[i]).id == v;
        assert((#[trigger] g1.delta@[i]).id == v);
    } else if exists|i: int| 0 <= i < g0.light@.len() && (#[trigger] g0.light@[i]).id == v {
        let i = choose|i: int| 0 <= i < g0.light@.len() && (#[trigger] g0.light@[i]).id == v;
        assert((#[trigger] g1.light@[i]).id == v);
    } else {
        let i = choose|i: int| 0 <= i < g0.run@.len() && (#[trigger] g0.run@[i]).id == v;
        assert((#[trigger] g1.run@[i]).id == v);
    }
}

/// An assigned id stays assigned when the three lists only grow.
proof fn lemma_id_assigned_extended(g0: ActionGroups, g1: ActionGroups, v: int)
    requires
        spec_id_assigned(g0, v),
        g0.delta@.len() <= g1.delta@.len(),
        g0.light@.len() <= g1.light@.len(),
        g0.run@.len() <= g1.run@.len(),
        forall|i: int| 0 <= i < g0.delta@.len() ==> #[trigger] g1.delta@[i] == g0.delta@[i],
        forall|i: int| 0 <= i < g0.light@.len() ==> #[trigger] g1.light@[i] == g0.light@[i],
        forall|i: int| 0 <= i < g0.run@.len() ==> #[trigger] g1.run@[i] == g0.run@[i],
    ensures
        spec_id_assigned(g1, v),
{
    if exists|i: int| 0 <= i < g0.delta@.len() && (#[trigger] g0.delta@[i]).id == v {
        let i = choose|i: int| 0 <= i < g0.delta@.len() && (#[trigger] g0.delta@[i]).id == v;
        assert((#[trigger] g1.delta@[i]).id == v);
    } else if exists|i: int| 0 <= i < g0.light@.len() && (#[trigger] g0.light@[i]).id == v {
        let i = choose|i: int| 0 <= i < g0.light@.len() && (#[trigger] g0.light@[i]).id == v;
        assert((#[trigger] g1.light@[i]).id == v);
    } else {
        let i = choose|i: int| 0 <= i < g0.run@.len() && (#[trigger] g0.run@[i]).id == v;
        assert((#[trigger] g1.run@[i]).id == v);
    }
}

impl ActionGroups {
    /// The invariant every reachable sequencer state satisfies: the global
    /// id counter counts all queued actions; ids are below the counter and
    /// every value below the counter is assigned, strictly increasing
    /// within each list, and pairwise distinct across the union of the
    /// three lists; motions carry their 1-based list-local id; and the
    /// barrier refers to a queued motion (or zero).
    pub open spec fn wf(self) -> bool {
        &&& self.global_id == self.delta@.len() + self.light@.len() + self.run@.len()
        &&& forall|i: int|
            0 <= i < self.delta@.len() ==> #[trigger] self.delta@[i].id < self.global_id
        &&& forall|i: int|
            0 <= i < self.light@.len() ==> #[trigger] self.light@[i].id < self.global_id
        &&& forall|i: int| 0 <= i < self.run@.len() ==> #[trigger] self.run@[i].id < self.global_id
        &&& forall|i: int, j: int|
            0 <= i < j < self.delta@.len() ==> #[trigger] self.delta@[i].id
                < #[trigger] self.delta@[j].id
        &&& forall|i: int, j: int|
            0 <= i < j < self.light@.len() ==> #[trigger] self.light@[i].id
                < #[trigger] self.light@[j].id
        &&& forall|i: int, j: int|
            0 <= i < j < self.run@.len() ==> #[trigger] self.run@[i].id
                < #[trigger] self.run@[j].id
        &&& forall|i: int, j: int|
            0 <= i < self.delta@.len() && 0 <= j < self.light@.len()
                ==> #[trigger] self.delta@[i].id != #[trigger] self.light@[j].id
        &&& forall|i: int, j: int|
            0 <= i < self.delta@.len() && 0 <= j < self.run@.len() ==> #[trigger] self.delta@[i].id
                != #[trigger] self.run@[j].id
        &&& forall|i: int, j: int|
            0 <= i < self.light@.len() && 0 <= j < self.run@.len() ==> #[trigger] self.light@[i].id
                != #[trigger] self.run@[j].id
        &&& forall|v: int| 0 <= v < self.global_id ==> #[trigger] spec_id_assigned(self, v)
        &&& forall|i: int|
            0 <= i < self.delta@.len() ==> #[trigger] self.delta@[i].payload.id == i + 1
        &&& forall|i: int|
            0 <= i < self.delta@.len() ==> (#[trigger] self.delta@[i]).action@
                == "queue_movement"@
        &&& forall|i: int|
            0 <= i < self.light@.len() ==> (#[trigger] self.light@[i]).action@ == "queue_light"@
        &&& forall|i: int|
            0 <= i < self.light@.len() ==> (#[trigger] self.light@[i]).payload.id
                <= self.delta@.len()
        &&& self.move_barrier_id <= self.delta@.len()
    }

    /// A fresh, empty sequencer: no actions, id counter at zero, no
    /// accumulated movement time, barrier armed.
    pub fn new() -> (r: ActionGroups)
        ensures
            r.delta@.len() == 0,
            r.light@.len() == 0,
            r.run@.len() == 0,
            r.global_id == 0,
            r.move_time == 0,
            r.move_barrier_id == 0,
            r.move_barrier_reset == true,
            r.wf(),
    {
        ActionGroups {
            delta: Vec::new(),
            light: Vec::new(),
            run: Vec::new(),
            global_id: 0,
            move_time: 0,
            move_barrier_id: 0,
            move_barrier_reset: true,
        }
    }

    /// The next global id that will be consumed.
    pub fn get_next_global_id(&self) -> (r: u32)
        ensures
            r == self.global_id,
    {
        self.global_id
    }

    /// The movement time accumulated since the last barrier reset, the
    /// timing budget for this group's lighting.
    pub fn get_movement_duration(&self) -> (r: u32)
        ensures
            r == self.move_time,
    {
        self.move_time
    }

    /// Start a new, logically independent motion group: re-arm the barrier
    /// and zero the movement-time accumulator.
    pub fn reset_barrier_id(&mut self)
        ensures
            *final(self) == (ActionGroups {
                move_time: 0u32,
                move_barrier_reset: true,
                ..*old(self)
            }),
            old(self).wf() ==> final(self).wf(),
    {
        let ghost g0 = *self;
        self.move_barrier_reset = true;
        self.move_time = 0;
        proof {
            if g0.wf() {
                assert forall|v: int| 0 <= v < self.global_id implies #[trigger] spec_id_assigned(
                    *self,
                    v,
                ) by {
                    lemma_id_assigned_same_lists(g0, *self, v);
                }
            }
        }
    }

    /// Queue a motion.  The motion takes the 1-based position in the motion
    /// list as its list-local id and consumes the next global id; the first
    /// motion after a barrier reset becomes the new barrier; substantive
    /// durations accumulate into the movement time.
    pub fn add_delta_action(&mut self, m: Motion)
        requires
            old(self).wf(),
            old(self).global_id < u32::MAX,
        ensures
            final(self).wf(),
            is_motion_add(*old(self), *final(self), m),
    {
        let mut m = m;
        let ghost g0 = *self;
        // The list-local sequence id of this move.
        m.id = self.delta.len() as u32 + 1;

        if self.move_barrier_reset {
            self.move_barrier_id = m.id;
            self.move_barrier_reset = false;
        }

        // Accumulate movement time; transit and shaping moves don't count,
        // because lighting timing must track only the real travel portion.
        if m.motion_type != MotionInterpolationType::PointTransit && m.motion_type
            != MotionInterpolationType::BezierCubic {
            if self.move_time as u64 + m.duration as u64 > u32::MAX as u64 {
                self.move_time = u32::MAX;
            } else {
                self.move_time = self.move_time + m.duration;
            }
        }

        let entry = DeltaAction {
            id: self.global_id,
            action: String::from_str("queue_movement"),
            payload: m,
        };
        self.delta.push(entry);
        self.global_id = self.global_id + 1;
        proof {
            assert(self.delta@.drop_last() =~= g0.delta@);
            assert forall|i: int| 0 <= i < g0.delta@.len() implies #[trigger] self.delta@[i]
                == g0.delta@[i] by {
                assert(self.delta@.drop_last()[i] == self.delta@[i]);
            }
            assert forall|v: int| 0 <= v < self.global_id implies #[trigger] spec_id_assigned(
                *self,
                v,
            ) by {
                if v < g0.global_id {
                    lemma_id_assigned_extended(g0, *self, v);
                } else {
                    assert((#[trigger] self.delta@[self.delta@.len() - 1]).id == v);
                }
            }
        }
    }

    /// Queue a light command.  The payload is stamped with the current
    /// barrier id, tying it to the motion group it illuminates, and the
    /// action consumes the next global id; the barrier and the movement
    /// time are untouched.
    pub fn add_light_action(&mut self, l: Fade)
        requires
            old(self).wf(),
            old(self).global_id < u32::MAX,
        ensures
            final(self).wf(),
            is_light_add(*old(self), *final(self), l),
    {
        let mut l = l;
        let ghost g0 = *self;
        l.id = self.move_barrier_id;

        let entry = LightAction {
            id: self.global_id,
            action: String::from_str("queue_light"),
            payload: l,
            comment: String::new(),
        };
        self.light.push(entry);
        self.global_id = self.global_id + 1;
        proof {
            assert(self.light@.drop_last() =~= g0.light@);
            assert forall|i: int| 0 <= i < g0.light@.len() implies #[trigger] self.light@[i]
                == g0.light@[i] by {
                assert(self.light@.drop_last()[i] == self.light@[i]);
            }
            assert forall|v: int| 0 <= v < self.global_id implies #[trigger] spec_id_assigned(
                *self,
                v,
            ) by {
                if v < g0.global_id {
                    lemma_id_assigned_extended(g0, *self, v);
                } else {
                    assert((#[trigger] self.light@[self.light@.len() - 1]).id == v);
                }
            }
        }
    }

    /// Queue an auxiliary step; it consumes the next global id and carries
    /// no barrier semantics.
    pub fn add_generic_action(&mut self, a: String, p: String)
        requires
            old(self).wf(),
            old(self).global_id < u32::MAX,
        ensures
            final(self).wf(),
            is_generic_add(*old(self), *final(self), a@, p@),
    {
        let ghost g0 = *self;
        let entry = GenericAction {
            id: self.global_id,
            action: a,
            payload: p,
            comment: String::new(),
            wait_for: 0,
        };
        self.run.push(entry);
        self.global_id = self.global_id + 1;
        proof {
            assert(self.run@.drop_last() =~= g0.run@);
            assert forall|i: int| 0 <= i < g0.run@.len() implies #[trigger] self.run@[i]
                == g0.run@[i] by {
                assert(self.run@.drop_last()[i] == self.run@[i]);
            }
            assert forall|v: int| 0 <= v < self.global_id implies #[trigger] spec_id_assigned(
                *self,
                v,
            ) by {
                if v < g0.global_id {
                    lemma_id_assigned_extended(g0, *self, v);
                } else {
                    assert((#[trigger] self.run@[self.run@.len() - 1]).id == v);
                }
            }
        }
    }
}

/// State transition of one `add_delta_action` call: `g1` is `g0` with the
/// motion `m` queued under the next global id and the 1-based list-local id,
/// the barrier taken by this motion if it was armed, and the movement time
/// accumulated if the motion is substantive.
pub open spec fn is_motion_add(g0: ActionGroups, g1: ActionGroups, m: Motion) -> bool {
    &&& g1.delta@.len() == g0.delta@.len() + 1
    &&& g1.delta@.drop_last() == g0.delta@
    &&& g1.delta@.last().id == g0.global_id
    &&& g1.delta@.last().action@ == "queue_movement"@
    &&& g1.delta@.last().payload.id == g0.delta@.len() + 1
    &&& g1.delta@.last().payload.motion_type == m.motion_type
    &&& g1.delta@.last().payload.reference == m.reference
    &&& g1.delta@.last().payload.duration == m.duration
    &&& g1.delta@.last().payload.points@ == m.points@
    &&& g1.light@ == g0.light@
    &&& g1.run@ == g0.run@
    &&& g1.global_id == g0.global_id + 1
    &&& g1.move_time == spec_accumulate(g0.move_time as int, m.motion_type, m.duration as int)
    &&& g1.move_barrier_id == (if g0.move_barrier_reset {
        g0.delta@.len() as int + 1
    } else {
        g0.move_barrier_id as int
    })
    &&& g1.move_barrier_reset == false
}

/// State transition of one `add_light_action` call: `g1` is `g0` with the
/// fade `l` queued under the next global id, its payload id replaced by the
/// current barrier id; the barrier and movement time are untouched.
pub open spec fn is_light_add(g0: ActionGroups, g1: ActionGroups, l: Fade) -> bool {
    &&& g1.light@.len() == g0.light@.len() + 1
    &&& g1.light@.drop_last() == g0.light@
    &&& g1.light@.last().id == g0.global_id
    &&& g1.light@.last().action@ == "queue_light"@
    &&& g1.light@.last().comment@ == Seq::<char>::empty()
    &&& g1.light@.last().payload.id == g0.move_barrier_id
    &&& g1.light@.last().payload.animation_type == l.animation_type
    &&& g1.light@.last().payload.duration == l.duration
    &&& g1.light@.last().payload.points@ == l.points@
    &&& g1.delta@ == g0.delta@
    &&& g1.run@ == g0.run@
    &&& g1.global_id == g0.global_id + 1
    &&& g1.move_time == g0.move_time
    &&& g1.move_barrier_id == g0.move_barrier_id
    &&& g1.move_barrier_reset == g0.move_barrier_reset
}

/// State transition of one `add_generic_action` call.
pub open spec fn is_generic_add(
    g0: ActionGroups,
    g1: ActionGroups,
    a: Seq<char>,
    p: Seq<char>,
) -> bool {
    &&& g1.run@.len() == g0.run@.len() + 1
    &&& g1.run@.drop_last() == g0.run@
    &&& g1.run@.last().id == g0.global_id
    &&& g1.run@.last().action@ == a
    &&& g1.run@.last().payload@ == p
    &&& g1.run@.last().comment@ == Seq::<char>::empty()
    &&& g1.run@.last().wait_for == 0
    &&& g1.delta@ == g0.delta@
    &&& g1.light@ == g0.light@
    &&& g1.global_id == g0.global_id + 1
    &&& g1.move_time == g0.move_time
    &&& g1.move_barrier_id == g0.move_barrier_id
    &&& g1.move_barrier_reset == g0.move_barrier_reset
}

/// Global ids are unique across the union of the three action lists,
/// whatever interleaving of add-operations produced the state: within each
/// list they are strictly increasing, and across any two lists no id
/// repeats.
pub proof fn lemma_global_ids_unique(g: ActionGroups)
    requires
        g.wf(),
    ensures
        forall|i: int, j: int|
            0 <= i < j < g.delta@.len() ==> #[trigger] g.delta@[i].id < #[trigger] g.delta@[j].id,
        forall|i: int, j: int|
            0 <= i < j < g.light@.len() ==> #[trigger] g.light@[i].id < #[trigger] g.light@[j].id,
        forall|i: int, j: int|
            0 <= i < j < g.run@.len() ==> #[trigger] g.run@[i].id < #[trigger] g.run@[j].id,
        forall|i: int, j: int|
            0 <= i < g.delta@.len() && 0 <= j < g.light@.len() ==> #[trigger] g.delta@[i].id
                != #[trigger] g.light@[j].id,
        forall|i: int, j: int|
            0 <= i < g.delta@.len() && 0 <= j < g.run@.len() ==> #[trigger] g.delta@[i].id
                != #[trigger] g.run@[j].id,
        forall|i: int, j: int|
            0 <= i < g.light@.len() && 0 <= j < g.run@.len() ==> #[trigger] g.light@[i].id
                != #[trigger] g.run@[j].id,
{
}

/// The assigned global ids are exactly the values the counter has consumed:
/// every queued action's id lies below `global_id`, and every value below
/// `global_id` is carried by some queued action — so across the union of
/// the three lists the ids are precisely 0 up to the action count, each
/// exactly once.
pub proof fn lemma_global_ids_exact(g: ActionGroups)
    requires
        g.wf(),
    ensures
        forall|v: int| #[trigger] spec_id_assigned(g, v) <==> 0 <= v < g.global_id,
{
    assert forall|v: int| #[trigger] spec_id_assigned(g, v) implies 0 <= v < g.global_id by {
        if exists|i: int| 0 <= i < g.delta@.len() && (#[trigger] g.delta@[i]).id == v {
            let i = choose|i: int| 0 <= i < g.delta@.len() && (#[trigger] g.delta@[i]).id == v;
            assert(g.delta@[i].id < g.global_id);
        } else if exists|i: int| 0 <= i < g.light@.len() && (#[trigger] g.light@[i]).id == v {
            let i = choose|i: int| 0 <= i < g.light@.len() && (#[trigger] g.light@[i]).id == v;
            assert(g.light@[i].id < g.global_id);
        } else {
            let i = choose|i: int| 0 <= i < g.run@.len() && (#[trigger] g.run@[i]).id == v;
            assert(g.run@[i].id < g.global_id);
        }
    }
}

/// The barrier links a light to the first motion of its group: starting
/// from any well-formed state with the barrier armed, adding a motion and
/// then a light stamps the light's payload with exactly that motion's
/// list-local id.
pub proof fn lemma_barrier_links_light(
    g0: ActionGroups,
    g1: ActionGroups,
    g2: ActionGroups,
    m: Motion,
    l: Fade,
)
    requires
        g0.wf(),
        g0.move_barrier_reset,
        is_motion_add(g0, g1, m),
        is_light_add(g1, g2, l),
    ensures
        g2.light@.last().payload.id == g1.delta@.last().payload.id,
        g2.light@.last().payload.id == g0.delta@.len() + 1,
{
}

/// Light actions never advance the barrier.
pub proof fn lemma_light_add_keeps_barrier(g0: ActionGroups, g1: ActionGroups, l: Fade)
    requires
        is_light_add(g0, g1, l),
    ensures
        g1.move_barrier_id == g0.move_barrier_id,
        g1.move_barrier_reset == g0.move_barrier_reset,
{
}

/// `g1` reached from `g0` by queueing the given fades, one
/// `add_light_action` at a time.
pub open spec fn is_light_chain(g0: ActionGroups, g1: ActionGroups, fades: Seq<Fade>) -> bool
    decreases fades.len(),
{
    if fades.len() == 0 {
        g1 == g0
    } else {
        exists|mid: ActionGroups|
            #[trigger] is_light_add(g0, mid, fades[0]) && is_light_chain(mid, g1, fades.drop_first())
    }
}

/// A whole chain of light actions leaves the barrier and the motion list
/// alone, and stamps every queued light with the barrier id the chain
/// started from.
pub proof fn lemma_light_chain_keeps_barrier(g0: ActionGroups, g1: ActionGroups, fades: Seq<Fade>)
    requires
        is_light_chain(g0, g1, fades),
    ensures
        g1.move_barrier_id == g0.move_barrier_id,
        g1.move_barrier_reset == g0.move_barrier_reset,
        g1.delta@ == g0.delta@,
        g1.light@.len() == g0.light@.len() + fades.len(),
        forall|j: int|
            g0.light@.len() <= j < g1.light@.len() ==> (#[trigger] g1.light@[j]).payload.id
                == g0.move_barrier_id,
        forall|j: int| 0 <= j < g0.light@.len() ==> #[trigger] g1.light@[j] == g0.light@[j],
    decreases fades.len(),
{
    if fades.len() == 0 {
    } else {
        let mid = choose|mid: ActionGroups|
            #[trigger] is_light_add(g0, mid, fades[0]) && is_light_chain(
                mid,
                g1,
                fades.drop_first(),
            );
        lemma_light_chain_keeps_barrier(mid, g1, fades.drop_first());
        assert forall|j: int| 0 <= j < mid.light@.len() implies #[trigger] mid.light@[j] == if j
            < g0.light@.len() {
            g0.light@[j]
        } else {
            mid.light@.last()
        } by {
            if j < g0.light@.len() {
                assert(mid.light@.drop_last()[j] == mid.light@[j]);
            }
        }
    }
}

/// The barrier links every light of a motion group to the group's first
/// motion: starting from any well-formed state with the barrier armed,
/// adding a motion and then any chain of lights stamps each light's payload
/// with exactly that motion's list-local id.
pub proof fn lemma_barrier_links_light_group(
    g0: ActionGroups,
    g1: ActionGroups,
    g2: ActionGroups,
    m: Motion,
    fades: Seq<Fade>,
)
    requires
        g0.wf(),
        g0.move_barrier_reset,
        is_motion_add(g0, g1, m),
        is_light_chain(g1, g2, fades),
    ensures
        forall|j: int|
            g1.light@.len() <= j < g2.light@.len() ==> (#[trigger] g2.light@[j]).payload.id
                == g1.delta@.last().payload.id,
        g1.delta@.last().payload.id == g0.delta@.len() + 1,
{
    lemma_light_chain_keeps_barrier(g1, g2, fades);
}

/// The smallest power of two, between 8 and 4096, that exceeds `input`;
/// saturates at 4096.  Export images are padded to this width.
pub fn next_power_two(input: u32) -> (r: u32)
    ensures
        r == 8 || r == 16 || r == 32 || r == 64 || r == 128 || r == 256 || r == 512 || r == 1024
            || r == 2048 || r == 4096,
        input < 4096 ==> input < r,
        input >= 4096 ==> r == 4096,
        r > 8 ==> r / 2 <= input,
{
    if input < 8 {
        8
    } else if input < 16 {
        16
    } else if input < 32 {
        32
    } else if input < 64 {
        64
    } else if input < 128 {
        128
    } else if input < 256 {
        256
    } else if input < 512 {
        512
    } else if input < 1024 {
        1024
    } else if input < 2048 {
        2048
    } else {
        4096
    }
}

} // verus!
