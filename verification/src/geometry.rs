//! Integer 3D/4D point types in millimeter units, with the scale and offset
//! transforms applied to imported curve data.

use vstd::prelude::*;

verus! {

/// Largest coordinate magnitude (in mm) the pipeline works with.  Imported
/// scenes are a few meters across; one kilometer leaves generous headroom
/// while keeping every squared-distance computation inside `i64`.
pub const MAX_COORD: i64 = 1_000_000;

/// A 3D point in millimeters.
#[derive(Clone, Copy, Debug, PartialEq, Eq, Structural)]
pub struct BlenderPoint3 {
    pub x: i64,
    pub y: i64,
    pub z: i64,
}

impl BlenderPoint3 {
    /// All coordinates within the working envelope bound.
    pub open spec fn in_bounds(self) -> bool {
        -MAX_COORD <= self.x <= MAX_COORD && -MAX_COORD <= self.y <= MAX_COORD
            && -MAX_COORD <= self.z <= MAX_COORD
    }

    /// The device's home/origin position.
    pub open spec fn spec_is_home(self) -> bool {
        self.x == 0 && self.y == 0 && self.z == 0
    }

    /// Whether this point is the device's home/origin position.
    pub fn is_home(&self) -> (r: bool)
        ensures
            r == self.spec_is_home(),
    {
        self.x == 0 && self.y == 0 && self.z == 0
    }

    /// Multiply every coordinate by `factor` (unit conversions).
    pub fn scale(&mut self, factor: i64)
        requires
            old(self).x * factor <= i64::MAX,
            i64::MIN <= old(self).x * factor,
            old(self).y * factor <= i64::MAX,
            i64::MIN <= old(self).y * factor,
            old(self).z * factor <= i64::MAX,
            i64::MIN <= old(self).z * factor,
        ensures
            final(self).x == old(self).x * factor,
            final(self).y == old(self).y * factor,
            final(self).z == old(self).z * factor,
    {
        self.x = self.x * factor;
        self.y = self.y * factor;
        self.z = self.z * factor;
    }

    /// Translate by the given offsets.
    pub fn offset(&mut self, x_offset: i64, y_offset: i64, z_offset: i64)
        requires
            i64::MIN <= old(self).x + x_offset <= i64::MAX,
            i64::MIN <= old(self).y + y_offset <= i64::MAX,
            i64::MIN <= old(self).z + z_offset <= i64::MAX,
        ensures
            final(self).x == old(self).x + x_offset,
            final(self).y == old(self).y + y_offset,
            final(self).z == old(self).z + z_offset,
    {
        self.x = self.x + x_offset;
        self.y = self.y + y_offset;
        self.z = self.z + z_offset;
    }
}

/// A 4D point as exported by the animation tool; the `w` term is carried for
/// format compatibility but never affects geometry.
#[derive(Clone, Copy, Debug, PartialEq, Eq, Structural)]
pub struct BlenderPoint4 {
    pub x: i64,
    pub y: i64,
    pub z: i64,
    pub w: i64,
}

impl BlenderPoint4 {
    /// All geometric coordinates within the working envelope bound.
    pub open spec fn in_bounds(self) -> bool {
        -MAX_COORD <= self.x <= MAX_COORD && -MAX_COORD <= self.y <= MAX_COORD
            && -MAX_COORD <= self.z <= MAX_COORD
    }

    /// Multiply the geometric coordinates by `factor`; `w` is ignored.
    pub fn scale(&mut self, factor: i64)
        requires
            i64::MIN <= old(self).x * factor <= i64::MAX,
            i64::MIN <= old(self).y * factor <= i64::MAX,
            i64::MIN <= old(self).z * factor <= i64::MAX,
        ensures
            final(self).x == old(self).x * factor,
            final(self).y == old(self).y * factor,
            final(self).z == old(self).z * factor,
            final(self).w == old(self).w,
    {
        self.x = self.x * factor;
        self.y = self.y * factor;
        self.z = self.z * factor;
    }

    /// Translate the geometric coordinates; `w` is ignored.
    pub fn offset(&mut self, x_offset: i64, y_offset: i64, z_offset: i64)
        requires
            i64::MIN <= old(self).x + x_offset <= i64::MAX,
            i64::MIN <= old(self).y + y_offset <= i64::MAX,
            i64::MIN <= old(self).z + z_offset <= i64::MAX,
        ensures
            final(self).x == old(self).x + x_offset,
            final(self).y == old(self).y + y_offset,
            final(self).z == old(self).z + z_offset,
            final(self).w == old(self).w,
    {
        self.x = self.x + x_offset;
        self.y = self.y + y_offset;
        self.z = self.z + z_offset;
    }

    /// The 3D point this one projects to when the `w` term is dropped.
    pub open spec fn spec_bp3(self) -> BlenderPoint3 {
        BlenderPoint3 { x: self.x, y: self.y, z: self.z }
    }

    /// Drop the `w` term.
    pub fn into_bp3(self) -> (r: BlenderPoint3)
        ensures
            r == self.spec_bp3(),
    {
        BlenderPoint3 { x: self.x, y: self.y, z: self.z }
    }
}

} // verus!
