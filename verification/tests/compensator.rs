use framecomp::ratio::Ratio;
use framecomp::scale::compensate;

fn ratio(num: i64, den: i64) -> Ratio {
    Ratio::new(num, den)
}

#[test]
fn reported_scale_is_reciprocal_of_zoom() {
    let p = compensate(ratio(640, 1), ratio(480, 1), ratio(3, 2), ratio(5, 2));
    // reported_scale == 1 / (5/2) == 2/5
    assert_eq!(p.reported_scale.num * 5, p.reported_scale.den * 2);
    // clip correction is the zoom itself
    assert_eq!(p.clip_correction.num, 5);
    assert_eq!(p.clip_correction.den, 2);
}

#[test]
fn target_resolution_is_panel_times_scale() {
    // 640 * 3/2 = 960, 480 * 3/2 = 720
    let p = compensate(ratio(640, 1), ratio(480, 1), ratio(3, 2), ratio(5, 2));
    assert_eq!(p.target_width, 960);
    assert_eq!(p.target_height, 720);
}

#[test]
fn target_resolution_ignores_zoom() {
    let a = compensate(ratio(640, 1), ratio(480, 1), ratio(3, 2), ratio(1, 1));
    let b = compensate(ratio(640, 1), ratio(480, 1), ratio(3, 2), ratio(7, 1));
    assert_eq!(a.target_width, b.target_width);
    assert_eq!(a.target_height, b.target_height);
}

#[test]
fn target_resolution_rounds_to_nearest() {
    // 333 * 3/2 = 499.5 rounds up to 500
    let p = compensate(ratio(333, 1), ratio(100, 1), ratio(3, 2), ratio(1, 1));
    assert_eq!(p.target_width, 500);
    // 100 * 7/5 = 140 exactly
    let q = compensate(ratio(100, 1), ratio(100, 1), ratio(7, 5), ratio(1, 1));
    assert_eq!(q.target_width, 140);
}

#[test]
fn zoom_monotonicity() {
    let lo = compensate(ratio(800, 1), ratio(600, 1), ratio(2, 1), ratio(1, 1));
    let hi = compensate(ratio(800, 1), ratio(600, 1), ratio(2, 1), ratio(3, 1));
    // Raising the zoom strictly lowers the reported scale...
    assert!(hi.reported_scale.lt_check(lo.reported_scale));
    // ...and strictly raises the clip correction.
    assert!(lo.clip_correction.lt_check(hi.clip_correction));
}

#[test]
fn panel_scenario_at_two_pixels_per_point() {
    // panel 800x600 points, scale factor 2, zoom 1
    let p = compensate(ratio(800, 1), ratio(600, 1), ratio(2, 1), ratio(1, 1));
    assert_eq!(p.target_width, 1600);
    assert_eq!(p.target_height, 1200);
    assert!(p.reported_scale.eqv_check(Ratio::new(1, 1)));
    // same panel and scale factor, zoom 2: targets unchanged, scale halves
    let q = compensate(ratio(800, 1), ratio(600, 1), ratio(2, 1), ratio(2, 1));
    assert_eq!(q.target_width, 1600);
    assert_eq!(q.target_height, 1200);
    assert!(q.reported_scale.eqv_check(Ratio::new(1, 2)));
}

#[test]
fn ratio_arithmetic() {
    let r = Ratio::new(3, -4);
    assert_eq!(r.num, -3);
    assert_eq!(r.den, 4);
    let p = Ratio::new(2, 3).times(Ratio::new(3, 2));
    assert!(p.eqv_check(Ratio::new(1, 1)));
    let inv = Ratio::new(4, 7).recip();
    assert_eq!(inv.num, 7);
    assert_eq!(inv.den, 4);
    assert!(Ratio::new(1, 3).lt_check(Ratio::new(1, 2)));
    assert!(!Ratio::new(1, 2).lt_check(Ratio::new(1, 2)));
    assert!(Ratio::new(2, 4).eqv_check(Ratio::new(1, 2)));
    assert_eq!(Ratio::from_int(9).num, 9);
    assert_eq!(Ratio::from_int(9).den, 1);
    // 5/2 rounds up to 3, 7/4 rounds to 2, 9/4 rounds to 2
    assert_eq!(Ratio::new(5, 2).round_to_u32(), 3);
    assert_eq!(Ratio::new(7, 4).round_to_u32(), 2);
    assert_eq!(Ratio::new(9, 4).round_to_u32(), 2);
}
