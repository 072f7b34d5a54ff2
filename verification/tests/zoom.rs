use pogo_hurdling::zoom::{window_scale, REFERENCE_SPAN};

#[test]
fn the_reference_span_is_fifteen_units() {
    assert_eq!(REFERENCE_SPAN, 15_000_000);
}

#[test]
fn scale_is_the_reference_span_over_the_width() {
    assert_eq!(window_scale(800_000_000), Some(18_750));
    assert_eq!(window_scale(15_000_000), Some(1_000_000));
    assert_eq!(window_scale(1_000_000), Some(15_000_000));
    assert_eq!(window_scale(1_500_000_000), Some(10_000));
    assert_eq!(window_scale(1), Some(15_000_000_000_000));
}

#[test]
fn scale_drops_the_fraction_of_a_step() {
    assert_eq!(window_scale(1_920_000_000), Some(7_812));
    assert_eq!(window_scale(1_366_000_000), Some(10_980));
    assert_eq!(window_scale(7_000_000), Some(2_142_857));
}

#[test]
fn scale_is_within_one_step_of_the_exact_quotient() {
    let span: u128 = 15_000_000 * 1_000_000;
    for width in [1u64, 3, 999_999, 640_000_000, 800_000_000, 1_234_567_891, 4_000_000_000_000, u64::MAX] {
        let scale = window_scale(width).unwrap();
        assert!(scale >= 0);
        let scale = scale as u128;
        assert!(scale * (width as u128) <= span);
        assert!(span < (scale + 1) * (width as u128));
    }
}

#[test]
fn scale_shrinks_as_the_window_grows() {
    let widths = [1u64, 2, 100_000_000, 800_000_000, 1_920_000_000, 15_000_000_000_000, u64::MAX];
    for pair in widths.windows(2) {
        assert!(window_scale(pair[1]).unwrap() <= window_scale(pair[0]).unwrap());
    }
}

#[test]
fn scale_of_a_very_wide_window_is_zero() {
    assert_eq!(window_scale(15_000_000_000_000), Some(1));
    assert_eq!(window_scale(15_000_000_000_001), Some(0));
    assert_eq!(window_scale(u64::MAX), Some(0));
}

#[test]
fn a_window_without_width_has_no_scale() {
    assert_eq!(window_scale(0), None);
}
