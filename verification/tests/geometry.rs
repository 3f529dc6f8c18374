//! Geometry resolver behavior on concrete values. All lengths are in
//! subpixel units (thousandths of a pixel), all percentages in
//! thousandths of a percent.

use bewegtbild::{SizeEntry, SizeRequest, PosRequest, PERCENT_UNIT};

#[test]
fn percent_constructor_accepts_the_valid_range() {
    assert_eq!(SizeEntry::percent(0), Some(SizeEntry::Percent(0)));
    assert_eq!(SizeEntry::percent(30_000), Some(SizeEntry::Percent(30_000)));
    assert_eq!(
        SizeEntry::percent(PERCENT_UNIT as u32),
        Some(SizeEntry::Percent(100_000))
    );
    assert_eq!(SizeEntry::percent(100_001), None);
    assert_eq!(SizeEntry::percent(u32::MAX), None);
}

#[test]
fn resolving_zero_percent_yields_zero() {
    let zero = SizeEntry::Percent(0);
    assert_eq!(zero.calc_size(0), 0);
    assert_eq!(zero.calc_size(800_000), 0);
    assert_eq!(zero.calc_size(0xFFFF_FFFF), 0);
}

#[test]
fn resolving_full_percent_yields_the_reference() {
    let full = SizeEntry::Percent(100_000);
    assert_eq!(full.calc_size(0), 0);
    assert_eq!(full.calc_size(800_000), 800_000);
    assert_eq!(full.calc_size(0xFFFF_FFFF), 0xFFFF_FFFF);
}

#[test]
fn resolving_is_monotonic_and_linear_in_the_percentage() {
    let reference: u64 = 800_000;
    let mut last: u64 = 0;
    for milli in [0u32, 10_000, 25_000, 30_000, 50_000, 75_000, 100_000] {
        let r = SizeEntry::Percent(milli).calc_size(reference);
        assert!(r >= last, "resolution must not decrease as the percentage grows");
        last = r;
    }
    // Linearity: resolving 30% + 20% equals resolving 30% plus resolving
    // 20% (the reference is divisible, so no rounding is lost).
    let r30 = SizeEntry::Percent(30_000).calc_size(reference);
    let r20 = SizeEntry::Percent(20_000).calc_size(reference);
    let r50 = SizeEntry::Percent(50_000).calc_size(reference);
    assert_eq!(r30 + r20, r50);
    // And in general the sum differs from the combined resolution by at
    // most the one unit lost to rounding down.
    let odd: u64 = 333_333;
    let a = SizeEntry::Percent(12_501).calc_size(odd);
    let b = SizeEntry::Percent(37_503).calc_size(odd);
    let c = SizeEntry::Percent(50_004).calc_size(odd);
    assert!(a + b <= c && c <= a + b + 1);
}

#[test]
fn thirty_percent_of_800_pixels_is_240_pixels() {
    assert_eq!(SizeEntry::Percent(30_000).calc_size(800_000), 240_000);
}

#[test]
fn position_resolves_each_axis_against_its_own_dimension() {
    let pos = PosRequest {
        width: SizeEntry::Percent(10_000),
        height: SizeEntry::Percent(20_000),
    };
    assert_eq!(pos.by_bbox((1_000_000, 800_000)), (100_000, 160_000));
}

#[test]
fn fixed_size_ignores_the_native_aspect_ratio() {
    let size = SizeRequest::Size(SizeEntry::Percent(50_000), SizeEntry::Percent(10_000));
    // Native dimensions present but deliberately ignored: the result may
    // distort the overlay, matching explicit caller intent.
    let r = size.by_bbox((1_920_000, 1_080_000), (1_000_000, 800_000));
    assert_eq!(r, (500_000, 80_000));
}

#[test]
fn auto_width_derives_the_width_from_the_native_ratio() {
    // Height 30% of an 800-pixel bounding box is 240 pixels; the width
    // follows the 1920:1080 native ratio: 240 * 1920 / 1080 = 426.666...
    // pixels, rounded down to the subpixel unit.
    let size = SizeRequest::AutoWidth(SizeEntry::Percent(30_000));
    let r = size.by_bbox((1_920_000, 1_080_000), (1_000_000, 800_000));
    assert_eq!(r, (426_666, 240_000));
}

#[test]
fn auto_height_derives_the_height_from_the_native_ratio() {
    // Width 30% of a 1000-pixel bounding box is 300 pixels; the height
    // follows the 1920:1080 native ratio exactly: 300 * 1080 / 1920 =
    // 168.75 pixels.
    let size = SizeRequest::AutoHeight(SizeEntry::Percent(30_000));
    let r = size.by_bbox((1_920_000, 1_080_000), (1_000_000, 800_000));
    assert_eq!(r, (300_000, 168_750));
}

#[test]
fn auto_height_preserves_the_aspect_ratio_within_tolerance() {
    let native = (1_920_000u64, 1_080_000u64);
    let bbox = (999_999u64, 800_000u64);
    let (w, h) = SizeRequest::AutoHeight(SizeEntry::Percent(33_333)).by_bbox(native, bbox);
    // Cross products agree to within one unit of height times the native
    // width: h = floor(w * native_h / native_w).
    let exact = (w as u128) * (native.1 as u128);
    assert!((h as u128) * (native.0 as u128) <= exact);
    assert!(exact < ((h + 1) as u128) * (native.0 as u128));
    // In floating point terms: w / h is within tolerance of 1920 / 1080.
    let ratio = w as f64 / h as f64;
    let native_ratio = 1920.0f64 / 1080.0;
    assert!((ratio - native_ratio).abs() < 1e-4);
}

#[test]
fn the_default_size_is_auto_height_thirty_percent() {
    assert_eq!(
        SizeRequest::default(),
        SizeRequest::AutoHeight(SizeEntry::Percent(30_000))
    );
}

#[test]
fn the_largest_reference_resolves_without_overflow() {
    let full = SizeEntry::Percent(100_000);
    assert_eq!(full.calc_size(0xFFFF_FFFF), 0xFFFF_FFFF);
    let half = SizeEntry::Percent(50_000);
    assert_eq!(half.calc_size(0xFFFF_FFFF), 0xFFFF_FFFF / 2);
}
