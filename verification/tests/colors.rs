use vortex::color_utils::{delta_led_from_hsl, distance_hsl, HslColor};

/// A fully saturated mid-lightness red: hue 0, so its projection needs no
/// trigonometry (cos 0 = 1, sin 0 = 0).
fn red() -> HslColor {
    HslColor::new(0, 100_000, 50_000, 5_000_000, 0, 50_000)
}

/// The same color rotated to hue 180: the first projection component flips.
fn cyan() -> HslColor {
    HslColor::new(180_000, 100_000, 50_000, -5_000_000, 0, 50_000)
}

#[test]
fn distance_to_self_is_zero() {
    let colors = [
        red(),
        cyan(),
        HslColor::gray(0),
        HslColor::gray(100_000),
        HslColor::new(270_000, 33_000, 90_000, 1_234, -4_321, 90_000),
    ];
    for c in colors.iter() {
        assert_eq!(distance_hsl(c, c), 0);
    }
}

#[test]
fn distance_between_opposite_hues() {
    // The projections differ only in the first component, by 10_000_000.
    assert_eq!(distance_hsl(&red(), &cyan()), 10_000_000);
    assert_eq!(distance_hsl(&cyan(), &red()), 10_000_000);
}

#[test]
fn distance_between_grays_is_lightness_difference() {
    let dark = HslColor::gray(10_000);
    let light = HslColor::gray(90_000);
    assert_eq!(distance_hsl(&dark, &light), 80_000);
}

#[test]
fn distance_rounds_down() {
    // Projections differing by (3, 4, 12) have distance 13; by (1, 1, 1),
    // sqrt(3) floored to 1.
    let a = HslColor::new(0, 0, 0, 0, 0, 0);
    let b = HslColor::new(0, 0, 0, 3, 4, 12);
    assert_eq!(distance_hsl(&a, &b), 13);
    let c = HslColor::new(0, 0, 0, 1, 1, 1);
    assert_eq!(distance_hsl(&a, &c), 1);
}

#[test]
fn led_payload_normalizes_to_unit_interval() {
    // Hue 90 of 360 degrees is a quarter turn; saturation and lightness
    // scale from thousandths of a percent to parts per million.
    let c = HslColor::new(90_000, 100_000, 50_000, 0, 5_000_000, 50_000);
    assert_eq!(delta_led_from_hsl(&c), (250_000, 1_000_000, 500_000));

    let white = HslColor::gray(100_000);
    assert_eq!(delta_led_from_hsl(&white), (0, 0, 1_000_000));

    let black = HslColor::gray(0);
    assert_eq!(delta_led_from_hsl(&black), (0, 0, 0));
}

#[test]
fn gray_carries_no_chroma() {
    let g = HslColor::gray(42_000);
    assert_eq!(g.hue_mdeg, 0);
    assert_eq!(g.sat_mpct, 0);
    assert_eq!(g.light_mpct, 42_000);
    assert_eq!((g.proj_a, g.proj_b, g.proj_c), (0, 0, 42_000));
}
