//! The three imported curve kinds — polylines, Catmull-Rom (NURBS-exported)
//! splines, and particle trail sets — with their shared capability set:
//! scaling, offsetting and loop-closing.  Each kind selects the sliding
//! window its segments need and how a window maps to movement start and end
//! points.

use vstd::prelude::*;
use vstd::slice::slice_index_get;

use crate::color_utils::HslColor;
use crate::errors::ToolpathError;
use crate::geometry::{BlenderPoint3, BlenderPoint4};

verus! {

/// Every point of `s` scaled by `factor` stays within `i64`.
pub open spec fn scale_ok4(s: Seq<BlenderPoint4>, factor: int) -> bool {
    forall|i: int|
        0 <= i < s.len() ==> {
            &&& i64::MIN <= #[trigger] s[i].x * factor <= i64::MAX
            &&& i64::MIN <= s[i].y * factor <= i64::MAX
            &&& i64::MIN <= s[i].z * factor <= i64::MAX
        }
}

/// Every point of `s` offset by the given deltas stays within `i64`.
pub open spec fn offset_ok4(s: Seq<BlenderPoint4>, dx: int, dy: int, dz: int) -> bool {
    forall|i: int|
        0 <= i < s.len() ==> {
            &&& i64::MIN <= #[trigger] s[i].x + dx <= i64::MAX
            &&& i64::MIN <= s[i].y + dy <= i64::MAX
            &&& i64::MIN <= s[i].z + dz <= i64::MAX
        }
}

/// `t` is `p` with its geometric coordinates scaled by `factor` (the `w`
/// term is carried unchanged).
pub open spec fn scaled4(p: BlenderPoint4, t: BlenderPoint4, factor: int) -> bool {
    t.x == p.x * factor && t.y == p.y * factor && t.z == p.z * factor && t.w == p.w
}

/// `t` is `p` translated by the given deltas (the `w` term is carried
/// unchanged).
pub open spec fn offset4(p: BlenderPoint4, t: BlenderPoint4, dx: int, dy: int, dz: int) -> bool {
    t.x == p.x + dx && t.y == p.y + dy && t.z == p.z + dz && t.w == p.w
}

/// An ordered polyline: a chain of straight segments with a per-point color
/// gradient.
#[derive(Clone, Debug)]
pub struct BlenderPoly {
    /// Declared total curve length in mm.
    pub curve_length: i64,
    /// The ordered control points.
    pub points: Vec<BlenderPoint4>,
    /// Whether the curve closes back onto its first point.
    pub cyclic: bool,
    /// Path of the color strip this curve was annotated with.
    pub uv_path: String,
    /// The decoded color gradient, one stop per strip pixel.
    pub color: Vec<HslColor>,
}

impl BlenderPoly {
    /// Segment walks need a window of two points: one line per pair.
    pub fn get_recommended_window_size() -> (r: usize)
        ensures
            r == 2,
    {
        2
    }

    /// The movement start of a window: its first point.
    pub fn get_start_point(slice: &[BlenderPoint4]) -> (r: BlenderPoint4)
        requires
            slice@.len() >= 2,
        ensures
            r == slice@[0],
    {
        *slice_index_get(slice, 0)
    }

    /// The movement end of a window: its second point.
    pub fn get_end_point(slice: &[BlenderPoint4]) -> (r: BlenderPoint4)
        requires
            slice@.len() >= 2,
        ensures
            r == slice@[1],
    {
        *slice_index_get(slice, 1)
    }

    /// Close a cyclic polyline by appending a copy of its first point, so
    /// the segment walk covers the seam.
    pub fn close_loop(&mut self)
        requires
            old(self).cyclic ==> old(self).points@.len() >= 1,
        ensures
            old(self).cyclic ==> final(self).points@ == old(self).points@.push(
                old(self).points@[0],
            ),
            !old(self).cyclic ==> final(self).points@ == old(self).points@,
            final(self).curve_length == old(self).curve_length,
            final(self).cyclic == old(self).cyclic,
            final(self).color@ == old(self).color@,
            final(self).uv_path@ == old(self).uv_path@,
    {
        if self.cyclic {
            let first = self.points[0];
            self.points.push(first);
        }
    }

    /// Scale every control point and the declared curve length.
    pub fn scale_points(&mut self, factor: i64)
        requires
            scale_ok4(old(self).points@, factor as int),
            i64::MIN <= old(self).curve_length * factor <= i64::MAX,
        ensures
            final(self).points@.len() == old(self).points@.len(),
            forall|i: int|
                0 <= i < old(self).points@.len() ==> scaled4(
                    old(self).points@[i],
                    #[trigger] final(self).points@[i],
                    factor as int,
                ),
            final(self).curve_length == old(self).curve_length * factor,
            final(self).cyclic == old(self).cyclic,
            final(self).color@ == old(self).color@,
            final(self).uv_path@ == old(self).uv_path@,
    {
        let mut i: usize = 0;
        while i < self.points.len()
            invariant
                0 <= i <= self.points@.len(),
                self.points@.len() == old(self).points@.len(),
                scale_ok4(old(self).points@, factor as int),
                forall|j: int|
                    0 <= j < i ==> scaled4(
                        old(self).points@[j],
                        #[trigger] self.points@[j],
                        factor as int,
                    ),
                forall|j: int| i <= j < self.points@.len() ==> self.points@[j] == old(
                    self,
                ).points@[j],
                self.curve_length == old(self).curve_length,
                self.cyclic == old(self).cyclic,
                self.color@ == old(self).color@,
                self.uv_path@ == old(self).uv_path@,
            decreases self.points@.len() - i,
        {
            let mut p = self.points[i];
            p.scale(factor);
            self.points.set(i, p);
            i = i + 1;
        }
        self.curve_length = self.curve_length * factor;
    }

    /// Translate every control point.
    pub fn offset_points(&mut self, x_offset: i64, y_offset: i64, z_offset: i64)
        requires
            offset_ok4(old(self).points@, x_offset as int, y_offset as int, z_offset as int),
        ensures
            final(self).points@.len() == old(self).points@.len(),
            forall|i: int|
                0 <= i < old(self).points@.len() ==> offset4(
                    old(self).points@[i],
                    #[trigger] final(self).points@[i],
                    x_offset as int,
                    y_offset as int,
                    z_offset as int,
                ),
            final(self).curve_length == old(self).curve_length,
            final(self).cyclic == old(self).cyclic,
            final(self).color@ == old(self).color@,
            final(self).uv_path@ == old(self).uv_path@,
    {
        let mut i: usize = 0;
        while i < self.points.len()
            invariant
                0 <= i <= self.points@.len(),
                self.points@.len() == old(self).points@.len(),
                offset_ok4(old(self).points@, x_offset as int, y_offset as int, z_offset as int),
                forall|j: int|
                    0 <= j < i ==> offset4(
                        old(self).points@[j],
                        #[trigger] self.points@[j],
                        x_offset as int,
                        y_offset as int,
                        z_offset as int,
                    ),
                forall|j: int| i <= j < self.points@.len() ==> self.points@[j] == old(
                    self,
                ).points@[j],
                self.curve_length == old(self).curve_length,
                self.cyclic == old(self).cyclic,
                self.color@ == old(self).color@,
                self.uv_path@ == old(self).uv_path@,
            decreases self.points@.len() - i,
        {
            let mut p = self.points[i];
            p.offset(x_offset, y_offset, z_offset);
            self.points.set(i, p);
            i = i + 1;
        }
    }
}

/// A NURBS-exported curve, traversed as Catmull-Rom segments: each interior
/// point pair needs its two neighbouring control points.
#[derive(Clone, Debug)]
pub struct BlenderNURBS {
    /// Declared total curve length in mm.
    pub curve_length: i64,
    /// The ordered control points.
    pub points: Vec<BlenderPoint4>,
    /// Whether the curve closes back onto its first point.
    pub cyclic: bool,
    /// Path of the color strip this curve was annotated with.
    pub uv_path: String,
    /// The decoded color gradient, one stop per strip pixel.
    pub color: Vec<HslColor>,
}

impl BlenderNURBS {
    /// Segment walks need a window of four control points.
    pub fn get_recommended_window_size() -> (r: usize)
        ensures
            r == 4,
    {
        4
    }

    /// The movement start of a window: its second point (the first is a
    /// control neighbour).
    pub fn get_start_point(slice: &[BlenderPoint4]) -> (r: BlenderPoint4)
        requires
            slice@.len() >= 3,
        ensures
            r == slice@[1],
    {
        *slice_index_get(slice, 1)
    }

    /// The movement end of a window: its third point (the fourth is a
    /// control neighbour).
    pub fn get_end_point(slice: &[BlenderPoint4]) -> (r: BlenderPoint4)
        requires
            slice@.len() >= 3,
        ensures
            r == slice@[2],
    {
        *slice_index_get(slice, 2)
    }

    /// Close a cyclic spline by appending copies of its first three points,
    /// preserving the four-point window requirement at the seam.
    pub fn close_loop(&mut self)
        requires
            old(self).cyclic ==> old(self).points@.len() >= 3,
        ensures
            old(self).cyclic ==> final(self).points@ == old(self).points@.push(
                old(self).points@[0],
            ).push(old(self).points@[1]).push(old(self).points@[2]),
            !old(self).cyclic ==> final(self).points@ == old(self).points@,
            final(self).curve_length == old(self).curve_length,
            final(self).cyclic == old(self).cyclic,
            final(self).color@ == old(self).color@,
            final(self).uv_path@ == old(self).uv_path@,
    {
        if self.cyclic {
            let p0 = self.points[0];
            let p1 = self.points[1];
            let p2 = self.points[2];
            self.points.push(p0);
            self.points.push(p1);
            self.points.push(p2);
        }
    }

    /// Scale every control point and the declared curve length.
    pub fn scale_points(&mut self, factor: i64)
        requires
            scale_ok4(old(self).points@, factor as int),
            i64::MIN <= old(self).curve_length * factor <= i64::MAX,
        ensures
            final(self).points@.len() == old(self).points@.len(),
            forall|i: int|
                0 <= i < old(self).points@.len() ==> scaled4(
                    old(self).points@[i],
                    #[trigger] final(self).points@[i],
                    factor as int,
                ),
            final(self).curve_length == old(self).curve_length * factor,
            final(self).cyclic == old(self).cyclic,
            final(self).color@ == old(self).color@,
            final(self).uv_path@ == old(self).uv_path@,
    {
        let mut i: usize = 0;
        while i < self.points.len()
            invariant
                0 <= i <= self.points@.len(),
                self.points@.len() == old(self).points@.len(),
                scale_ok4(old(self).points@, factor as int),
                forall|j: int|
                    0 <= j < i ==> scaled4(
                        old(self).points@[j],
                        #[trigger] self.points@[j],
                        factor as int,
                    ),
                forall|j: int| i <= j < self.points@.len() ==> self.points@[j] == old(
                    self,
                ).points@[j],
                self.curve_length == old(self).curve_length,
                self.cyclic == old(self).cyclic,
                self.color@ == old(self).color@,
                self.uv_path@ == old(self).uv_path@,
            decreases self.points@.len() - i,
        {
            let mut p = self.points[i];
            p.scale(factor);
            self.points.set(i, p);
            i = i + 1;
        }
        self.curve_length = self.curve_length * factor;
    }

    /// Translate every control point.
    pub fn offset_points(&mut self, x_offset: i64, y_offset: i64, z_offset: i64)
        requires
            offset_ok4(old(self).points@, x_offset as int, y_offset as int, z_offset as int),
        ensures
            final(self).points@.len() == old(self).points@.len(),
            forall|i: int|
                0 <= i < old(self).points@.len() ==> offset4(
                    old(self).points@[i],
                    #[trigger] final(self).points@[i],
                    x_offset as int,
                    y_offset as int,
                    z_offset as int,
                ),
            final(self).curve_length == old(self).curve_length,
            final(self).cyclic == old(self).cyclic,
            final(self).color@ == old(self).color@,
            final(self).uv_path@ == old(self).uv_path@,
    {
        let mut i: usize = 0;
        while i < self.points.len()
            invariant
                0 <= i <= self.points@.len(),
                self.points@.len() == old(self).points@.len(),
                offset_ok4(old(self).points@, x_offset as int, y_offset as int, z_offset as int),
                forall|j: int|
                    0 <= j < i ==> offset4(
                        old(self).points@[j],
                        #[trigger] self.points@[j],
                        x_offset as int,
                        y_offset as int,
                        z_offset as int,
                    ),
                forall|j: int| i <= j < self.points@.len() ==> self.points@[j] == old(
                    self,
                ).points@[j],
                self.curve_length == old(self).curve_length,
                self.cyclic == old(self).cyclic,
                self.color@ == old(self).color@,
                self.uv_path@ == old(self).uv_path@,
            decreases self.points@.len() - i,
        {
            let mut p = self.points[i];
            p.offset(x_offset, y_offset, z_offset);
            self.points.set(i, p);
            i = i + 1;
        }
    }
}

/// One particle of a trail set: its current and previous position, velocity
/// and rotation.
#[derive(Clone, Copy, Debug, PartialEq, Eq, Structural)]
pub struct BlenderParticle {
    pub location: BlenderPoint3,
    pub prev_location: BlenderPoint3,
    pub velocity: BlenderPoint3,
    pub prev_velocity: BlenderPoint3,
    pub rotation: BlenderPoint4,
    pub prev_rotation: BlenderPoint4,
}

/// All components of all six fields of `p` scaled by `factor` stay within
/// `i64`.
pub open spec fn particle_scale_ok(p: BlenderParticle, factor: int) -> bool {
    &&& i64::MIN <= p.location.x * factor <= i64::MAX && i64::MIN <= p.location.y * factor
        <= i64::MAX && i64::MIN <= p.location.z * factor <= i64::MAX
    &&& i64::MIN <= p.prev_location.x * factor <= i64::MAX && i64::MIN <= p.prev_location.y * factor
        <= i64::MAX && i64::MIN <= p.prev_location.z * factor <= i64::MAX
    &&& i64::MIN <= p.velocity.x * factor <= i64::MAX && i64::MIN <= p.velocity.y * factor
        <= i64::MAX && i64::MIN <= p.velocity.z * factor <= i64::MAX
    &&& i64::MIN <= p.prev_velocity.x * factor <= i64::MAX && i64::MIN <= p.prev_velocity.y * factor
        <= i64::MAX && i64::MIN <= p.prev_velocity.z * factor <= i64::MAX
    &&& i64::MIN <= p.rotation.x * factor <= i64::MAX && i64::MIN <= p.rotation.y * factor
        <= i64::MAX && i64::MIN <= p.rotation.z * factor <= i64::MAX
    &&& i64::MIN <= p.prev_rotation.x * factor <= i64::MAX && i64::MIN <= p.prev_rotation.y * factor
        <= i64::MAX && i64::MIN <= p.prev_rotation.z * factor <= i64::MAX
}

/// All components of all six fields of `p` offset by the deltas stay within
/// `i64`.
pub open spec fn particle_offset_ok(p: BlenderParticle, dx: int, dy: int, dz: int) -> bool {
    &&& i64::MIN <= p.location.x + dx <= i64::MAX && i64::MIN <= p.location.y + dy <= i64::MAX
        && i64::MIN <= p.location.z + dz <= i64::MAX
    &&& i64::MIN <= p.prev_location.x + dx <= i64::MAX && i64::MIN <= p.prev_location.y + dy
        <= i64::MAX && i64::MIN <= p.prev_location.z + dz <= i64::MAX
    &&& i64::MIN <= p.velocity.x + dx <= i64::MAX && i64::MIN <= p.velocity.y + dy <= i64::MAX
        && i64::MIN <= p.velocity.z + dz <= i64::MAX
    &&& i64::MIN <= p.prev_velocity.x + dx <= i64::MAX && i64::MIN <= p.prev_velocity.y + dy
        <= i64::MAX && i64::MIN <= p.prev_velocity.z + dz <= i64::MAX
    &&& i64::MIN <= p.rotation.x + dx <= i64::MAX && i64::MIN <= p.rotation.y + dy <= i64::MAX
        && i64::MIN <= p.rotation.z + dz <= i64::MAX
    &&& i64::MIN <= p.prev_rotation.x + dx <= i64::MAX && i64::MIN <= p.prev_rotation.y + dy
        <= i64::MAX && i64::MIN <= p.prev_rotation.z + dz <= i64::MAX
}

/// `t` is `p` with all six point fields scaled by `factor` (rotation `w`
/// terms carried unchanged).
pub open spec fn particle_scaled(p: BlenderParticle, t: BlenderParticle, factor: int) -> bool {
    &&& t.location.x == p.location.x * factor && t.location.y == p.location.y * factor
        && t.location.z == p.location.z * factor
    &&& t.prev_location.x == p.prev_location.x * factor && t.prev_location.y == p.prev_location.y
        * factor && t.prev_location.z == p.prev_location.z * factor
    &&& t.velocity.x == p.velocity.x * factor && t.velocity.y == p.velocity.y * factor
        && t.velocity.z == p.velocity.z * factor
    &&& t.prev_velocity.x == p.prev_velocity.x * factor && t.prev_velocity.y == p.prev_velocity.y
        * factor && t.prev_velocity.z == p.prev_velocity.z * factor
    &&& scaled4(p.rotation, t.rotation, factor)
    &&& scaled4(p.prev_rotation, t.prev_rotation, factor)
}

/// `t` is `p` with all six point fields translated by the deltas (rotation
/// `w` terms carried unchanged).
pub open spec fn particle_offsetted(
    p: BlenderParticle,
    t: BlenderParticle,
    dx: int,
    dy: int,
    dz: int,
) -> bool {
    &&& t.location.x == p.location.x + dx && t.location.y == p.location.y + dy && t.location.z
        == p.location.z + dz
    &&& t.prev_location.x == p.prev_location.x + dx && t.prev_location.y == p.prev_location.y + dy
        && t.prev_location.z == p.prev_location.z + dz
    &&& t.velocity.x == p.velocity.x + dx && t.velocity.y == p.velocity.y + dy && t.velocity.z
        == p.velocity.z + dz
    &&& t.prev_velocity.x == p.prev_velocity.x + dx && t.prev_velocity.y == p.prev_velocity.y + dy
        && t.prev_velocity.z == p.prev_velocity.z + dz
    &&& offset4(p.rotation, t.rotation, dx, dy, dz)
    &&& offset4(p.prev_rotation, t.prev_rotation, dx, dy, dz)
}

impl BlenderParticle {
    /// Scale all six point fields.
    pub fn scale(&mut self, factor: i64)
        requires
            particle_scale_ok(*old(self), factor as int),
        ensures
            particle_scaled(*old(self), *final(self), factor as int),
    {
        self.location.scale(factor);
        self.prev_location.scale(factor);
        self.velocity.scale(factor);
        self.prev_velocity.scale(factor);
        self.rotation.scale(factor);
        self.prev_rotation.scale(factor);
    }

    /// Translate all six point fields.
    pub fn offset(&mut self, x_offset: i64, y_offset: i64, z_offset: i64)
        requires
            particle_offset_ok(*old(self), x_offset as int, y_offset as int, z_offset as int),
        ensures
            particle_offsetted(
                *old(self),
                *final(self),
                x_offset as int,
                y_offset as int,
                z_offset as int,
            ),
    {
        self.location.offset(x_offset, y_offset, z_offset);
        self.prev_location.offset(x_offset, y_offset, z_offset);
        self.velocity.offset(x_offset, y_offset, z_offset);
        self.prev_velocity.offset(x_offset, y_offset, z_offset);
        self.rotation.offset(x_offset, y_offset, z_offset);
        self.prev_rotation.offset(x_offset, y_offset, z_offset);
    }
}

/// The shared color of a particle set as exported: a unit-interval RGBA
/// quadruple in parts per million.
#[derive(Clone, Copy, Debug, PartialEq, Eq, Structural)]
pub struct RgbaColor {
    pub red: u32,
    pub green: u32,
    pub blue: u32,
    pub alpha: u32,
}

/// An unordered particle trail set with one shared color gradient.
#[derive(Clone, Debug)]
pub struct BlenderParticles {
    /// The particles, in export order.
    pub particles: Vec<BlenderParticle>,
    /// The shared color as exported.
    pub color_rgba: RgbaColor,
    /// The shared color gradient applied to every trail.
    pub color: Vec<HslColor>,
}

impl BlenderParticles {
    /// Particle trails are walked one particle at a time.
    pub fn get_recommended_window_size() -> (r: usize)
        ensures
            r == 1,
    {
        1
    }

    /// Scale every particle's point fields.
    pub fn scale_points(&mut self, factor: i64)
        requires
            forall|i: int|
                0 <= i < old(self).particles@.len() ==> particle_scale_ok(
                    #[trigger] old(self).particles@[i],
                    factor as int,
                ),
        ensures
            final(self).particles@.len() == old(self).particles@.len(),
            forall|i: int|
                0 <= i < old(self).particles@.len() ==> particle_scaled(
                    old(self).particles@[i],
                    #[trigger] final(self).particles@[i],
                    factor as int,
                ),
            final(self).color@ == old(self).color@,
            final(self).color_rgba == old(self).color_rgba,
    {
        let mut i: usize = 0;
        while i < self.particles.len()
            invariant
                0 <= i <= self.particles@.len(),
                self.particles@.len() == old(self).particles@.len(),
                forall|j: int|
                    0 <= j < old(self).particles@.len() ==> particle_scale_ok(
                        #[trigger] old(self).particles@[j],
                        factor as int,
                    ),
                forall|j: int|
                    0 <= j < i ==> particle_scaled(
                        old(self).particles@[j],
                        #[trigger] self.particles@[j],
                        factor as int,
                    ),
                forall|j: int| i <= j < self.particles@.len() ==> self.particles@[j] == old(
                    self,
                ).particles@[j],
                self.color@ == old(self).color@,
                self.color_rgba == old(self).color_rgba,
            decreases self.particles@.len() - i,
        {
            let mut q = self.particles[i];
            q.scale(factor);
            self.particles.set(i, q);
            i = i + 1;
        }
    }

    /// Translate every particle's point fields.
    pub fn offset_points(&mut self, x_offset: i64, y_offset: i64, z_offset: i64)
        requires
            forall|i: int|
                0 <= i < old(self).particles@.len() ==> particle_offset_ok(
                    #[trigger] old(self).particles@[i],
                    x_offset as int,
                    y_offset as int,
                    z_offset as int,
                ),
        ensures
            final(self).particles@.len() == old(self).particles@.len(),
            forall|i: int|
                0 <= i < old(self).particles@.len() ==> particle_offsetted(
                    old(self).particles@[i],
                    #[trigger] final(self).particles@[i],
                    x_offset as int,
                    y_offset as int,
                    z_offset as int,
                ),
            final(self).color@ == old(self).color@,
            final(self).color_rgba == old(self).color_rgba,
    {
        let mut i: usize = 0;
        while i < self.particles.len()
            invariant
                0 <= i <= self.particles@.len(),
                self.particles@.len() == old(self).particles@.len(),
                forall|j: int|
                    0 <= j < old(self).particles@.len() ==> particle_offset_ok(
                        #[trigger] old(self).particles@[j],
                        x_offset as int,
                        y_offset as int,
                        z_offset as int,
                    ),
                forall|j: int|
                    0 <= j < i ==> particle_offsetted(
                        old(self).particles@[j],
                        #[trigger] self.particles@[j],
                        x_offset as int,
                        y_offset as int,
                        z_offset as int,
                    ),
                forall|j: int| i <= j < self.particles@.len() ==> self.particles@[j] == old(
                    self,
                ).particles@[j],
                self.color@ == old(self).color@,
                self.color_rgba == old(self).color_rgba,
            decreases self.particles@.len() - i,
        {
            let mut q = self.particles[i];
            q.offset(x_offset, y_offset, z_offset);
            self.particles.set(i, q);
            i = i + 1;
        }
    }
}

/// One imported curve of any kind.
#[derive(Clone, Debug)]
pub enum BlenderData {
    /// An ordered polyline.
    PolySpline(BlenderPoly),
    /// A Catmull-Rom (NURBS-exported) spline.
    NURBSSpline(BlenderNURBS),
    /// An unordered particle trail set.
    Particles(BlenderParticles),
}

impl BlenderData {
    /// Scale every geometric coordinate of the curve by `factor`.
    pub fn scale_points(&mut self, factor: i64)
        requires
            *old(self) matches BlenderData::PolySpline(p) ==> scale_ok4(p.points@, factor as int)
                && i64::MIN <= p.curve_length * factor <= i64::MAX,
            *old(self) matches BlenderData::NURBSSpline(n) ==> scale_ok4(n.points@, factor as int)
                && i64::MIN <= n.curve_length * factor <= i64::MAX,
            *old(self) matches BlenderData::Particles(ps) ==> forall|i: int|
                0 <= i < ps.particles@.len() ==> particle_scale_ok(
                    #[trigger] ps.particles@[i],
                    factor as int,
                ),
        ensures
            *old(self) matches BlenderData::PolySpline(p) ==> *final(self) matches
                BlenderData::PolySpline(q) && q.points@.len() == p.points@.len() && (forall|i: int|
                0 <= i < p.points@.len() ==> scaled4(
                    p.points@[i],
                    #[trigger] q.points@[i],
                    factor as int,
                )) && q.curve_length == p.curve_length * factor,
            *old(self) matches BlenderData::NURBSSpline(n) ==> *final(self) matches
                BlenderData::NURBSSpline(q) && q.points@.len() == n.points@.len() && (forall|i: int|
                0 <= i < n.points@.len() ==> scaled4(
                    n.points@[i],
                    #[trigger] q.points@[i],
                    factor as int,
                )) && q.curve_length == n.curve_length * factor,
            *old(self) matches BlenderData::Particles(ps) ==> *final(self) matches
                BlenderData::Particles(qs) && qs.particles@.len() == ps.particles@.len() && (forall|
                i: int,
            |
                0 <= i < ps.particles@.len() ==> particle_scaled(
                    ps.particles@[i],
                    #[trigger] qs.particles@[i],
                    factor as int,
                )),
    {
        match self {
            BlenderData::PolySpline(p) => p.scale_points(factor),
            BlenderData::NURBSSpline(n) => n.scale_points(factor),
            BlenderData::Particles(ps) => ps.scale_points(factor),
        }
    }

    /// Translate every geometric coordinate of the curve.
    pub fn offset_points(&mut self, x_offset: i64, y_offset: i64, z_offset: i64)
        requires
            *old(self) matches BlenderData::PolySpline(p) ==> offset_ok4(
                p.points@,
                x_offset as int,
                y_offset as int,
                z_offset as int,
            ),
            *old(self) matches BlenderData::NURBSSpline(n) ==> offset_ok4(
                n.points@,
                x_offset as int,
                y_offset as int,
                z_offset as int,
            ),
            *old(self) matches BlenderData::Particles(ps) ==> forall|i: int|
                0 <= i < ps.particles@.len() ==> particle_offset_ok(
                    #[trigger] ps.particles@[i],
                    x_offset as int,
                    y_offset as int,
                    z_offset as int,
                ),
        ensures
            *old(self) matches BlenderData::PolySpline(p) ==> *final(self) matches
                BlenderData::PolySpline(q) && q.points@.len() == p.points@.len() && (forall|i: int|
                0 <= i < p.points@.len() ==> offset4(
                    p.points@[i],
                    #[trigger] q.points@[i],
                    x_offset as int,
                    y_offset as int,
                    z_offset as int,
                )),
            *old(self) matches BlenderData::NURBSSpline(n) ==> *final(self) matches
                BlenderData::NURBSSpline(q) && q.points@.len() == n.points@.len() && (forall|i: int|
                0 <= i < n.points@.len() ==> offset4(
                    n.points@[i],
                    #[trigger] q.points@[i],
                    x_offset as int,
                    y_offset as int,
                    z_offset as int,
                )),
            *old(self) matches BlenderData::Particles(ps) ==> *final(self) matches
                BlenderData::Particles(qs) && qs.particles@.len() == ps.particles@.len() && (forall|
                i: int,
            |
                0 <= i < ps.particles@.len() ==> particle_offsetted(
                    ps.particles@[i],
                    #[trigger] qs.particles@[i],
                    x_offset as int,
                    y_offset as int,
                    z_offset as int,
                )),
    {
        match self {
            BlenderData::PolySpline(p) => p.offset_points(x_offset, y_offset, z_offset),
            BlenderData::NURBSSpline(n) => n.offset_points(x_offset, y_offset, z_offset),
            BlenderData::Particles(ps) => ps.offset_points(x_offset, y_offset, z_offset),
        }
    }

    /// Close a cyclic curve's loop.  Particle sets have no loop-closing
    /// semantics: the operation is rejected and the set is unchanged.
    pub fn close_loop(&mut self) -> (r: Result<(), ToolpathError>)
        requires
            *old(self) matches BlenderData::PolySpline(p) ==> (p.cyclic ==> p.points@.len() >= 1),
            *old(self) matches BlenderData::NURBSSpline(n) ==> (n.cyclic ==> n.points@.len() >= 3),
        ensures
            r is Ok <==> !(*old(self) is Particles),
            *old(self) is Particles ==> r == Err::<(), ToolpathError>(
                ToolpathError::UnsupportedOperation,
            ) && *final(self) == *old(self),
            *old(self) matches BlenderData::PolySpline(p) ==> *final(self) matches
                BlenderData::PolySpline(q) && (p.cyclic ==> q.points@ == p.points@.push(
                p.points@[0],
            )) && (!p.cyclic ==> q.points@ == p.points@),
            *old(self) matches BlenderData::NURBSSpline(n) ==> *final(self) matches
                BlenderData::NURBSSpline(q) && (n.cyclic ==> q.points@ == n.points@.push(
                n.points@[0],
            ).push(n.points@[1]).push(n.points@[2])) && (!n.cyclic ==> q.points@ == n.points@),
    {
        match self {
            BlenderData::PolySpline(p) => {
                p.close_loop();
                Ok(())
            },
            BlenderData::NURBSSpline(n) => {
                n.close_loop();
                Ok(())
            },
            BlenderData::Particles(_) => Err(ToolpathError::UnsupportedOperation),
        }
    }
}

} // verus!
