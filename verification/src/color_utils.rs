//! Perceptual color model for the lighting fixture.
//!
//! A color is held as HSL in fixed-point milli-units (hue in millidegrees,
//! saturation and lightness in thousandths of a percent) together with its
//! lightness-scaled polar-to-Cartesian projection, the space in which the
//! perceptual distance is a plain Euclidean distance.  The projection is
//! computed by the importing layer when a color enters the pipeline (it needs
//! trigonometry); everything that reads it here is exact integer arithmetic.

use vstd::prelude::*;

use crate::numeric::{is_sqrt_floor, isqrt_u64, lemma_sqrt_floor_unique, sqrt_floor};

verus! {

/// Magnitude bound for the projected components: full saturation and
/// lightness project to 100 * 100 * 1000 milli-units.
pub const PROJ_BOUND: i64 = 10_000_000;

/// An HSL color stop with its perceptual projection.
///
/// `proj_a`, `proj_b`, `proj_c` hold `(cos(hue) * sat * light,
/// sin(hue) * sat * light, light)` with saturation and lightness in percent,
/// scaled by 1000 and rounded — the lightness-scaled projection under which
/// hue differences of dark or desaturated colors matter less.
#[derive(Clone, Copy, Debug, PartialEq, Eq, Structural)]
pub struct HslColor {
    /// Hue in millidegrees, below 360_000.
    pub hue_mdeg: u32,
    /// Saturation in thousandths of a percent, at most 100_000.
    pub sat_mpct: u32,
    /// Lightness in thousandths of a percent, at most 100_000.
    pub light_mpct: u32,
    /// First Cartesian component of the perceptual projection.
    pub proj_a: i64,
    /// Second Cartesian component of the perceptual projection.
    pub proj_b: i64,
    /// Third Cartesian component of the perceptual projection (lightness).
    pub proj_c: i64,
}

impl HslColor {
    /// Component ranges every color stop carries.
    pub open spec fn wf(self) -> bool {
        &&& self.hue_mdeg < 360_000
        &&& self.sat_mpct <= 100_000
        &&& self.light_mpct <= 100_000
        &&& -PROJ_BOUND <= self.proj_a <= PROJ_BOUND
        &&& -PROJ_BOUND <= self.proj_b <= PROJ_BOUND
        &&& 0 <= self.proj_c <= 100_000
    }

    /// Build a color stop from its components.
    pub fn new(
        hue_mdeg: u32,
        sat_mpct: u32,
        light_mpct: u32,
        proj_a: i64,
        proj_b: i64,
        proj_c: i64,
    ) -> (r: HslColor)
        requires
            hue_mdeg < 360_000,
            sat_mpct <= 100_000,
            light_mpct <= 100_000,
            -PROJ_BOUND <= proj_a <= PROJ_BOUND,
            -PROJ_BOUND <= proj_b <= PROJ_BOUND,
            0 <= proj_c <= 100_000,
        ensures
            r == (HslColor { hue_mdeg, sat_mpct, light_mpct, proj_a, proj_b, proj_c }),
            r.wf(),
    {
        HslColor { hue_mdeg, sat_mpct, light_mpct, proj_a, proj_b, proj_c }
    }

    /// A fully desaturated (gray) stop at the given lightness, whose
    /// projection needs no trigonometry.
    pub fn gray(light_mpct: u32) -> (r: HslColor)
        requires
            light_mpct <= 100_000,
        ensures
            r == (HslColor {
                hue_mdeg: 0u32,
                sat_mpct: 0u32,
                light_mpct,
                proj_a: 0i64,
                proj_b: 0i64,
                proj_c: light_mpct as i64,
            }),
            r.wf(),
    {
        HslColor {
            hue_mdeg: 0,
            sat_mpct: 0,
            light_mpct,
            proj_a: 0,
            proj_b: 0,
            proj_c: light_mpct as i64,
        }
    }
}

/// Squared Euclidean distance between the perceptual projections of two
/// colors.
pub open spec fn color_dist_sq(x: HslColor, y: HslColor) -> int {
    (x.proj_a - y.proj_a) * (x.proj_a - y.proj_a) + (x.proj_b - y.proj_b) * (x.proj_b - y.proj_b)
        + (x.proj_c - y.proj_c) * (x.proj_c - y.proj_c)
}

/// Perceptual distance between two colors, in projection milli-units,
/// rounded down: the Euclidean distance between the two projected triples.
/// The distance of any color to itself is exactly zero.
pub fn distance_hsl(x: &HslColor, y: &HslColor) -> (r: u64)
    requires
        x.wf(),
        y.wf(),
    ensures
        is_sqrt_floor(color_dist_sq(*x, *y), r as int),
        r == sqrt_floor(color_dist_sq(*x, *y)),
        x == y ==> r == 0,
        r <= 35_000_000,
{
    let da = x.proj_a - y.proj_a;
    let db = x.proj_b - y.proj_b;
    let dc = x.proj_c - y.proj_c;
    assert(0 <= da * da <= 400_000_000_000_000 && 0 <= db * db <= 400_000_000_000_000 && 0 <= dc
        * dc <= 400_000_000_000_000) by (nonlinear_arith)
        requires
            -20_000_000 <= da <= 20_000_000,
            -20_000_000 <= db <= 20_000_000,
            -20_000_000 <= dc <= 20_000_000,
    ;
    let sq: i64 = da * da + db * db + dc * dc;
    let r = isqrt_u64(sq as u64);
    proof {
        if x == y {
            lemma_sqrt_floor_unique(0, 0);
        }
        assert(r <= 35_000_000) by (nonlinear_arith)
            requires
                (r as int) * (r as int) <= sq as int,
                sq <= 1_200_000_000_000_000,
        ;
    }
    r
}

/// The light-payload triple for a color: hue, saturation and lightness each
/// normalized to the unit interval, in parts per million.
pub open spec fn spec_delta_led(c: HslColor) -> (u32, u32, u32) {
    (
        ((c.hue_mdeg * 1_000_000) / 360_000) as u32,
        (c.sat_mpct * 10) as u32,
        (c.light_mpct * 10) as u32,
    )
}

/// Normalize a color to the unit-interval triple carried in light payloads.
pub fn delta_led_from_hsl(color: &HslColor) -> (r: (u32, u32, u32))
    requires
        color.wf(),
    ensures
        r == spec_delta_led(*color),
        r.0 <= 1_000_000 && r.1 <= 1_000_000 && r.2 <= 1_000_000,
{
    let hue: u64 = (color.hue_mdeg as u64) * 1_000_000 / 360_000;
    proof {
        vstd::arithmetic::div_mod::lemma_div_is_ordered(
            (color.hue_mdeg as int) * 1_000_000,
            360_000int * 1_000_000,
            360_000,
        );
        assert((360_000int * 1_000_000) / 360_000 == 1_000_000int);
    }
    (hue as u32, color.sat_mpct * 10, color.light_mpct * 10)
}

} // verus!
