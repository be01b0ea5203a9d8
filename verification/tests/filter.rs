use pxtally::angle::Angle;
use pxtally::filter::{create_hue_filter, CielabFilter, CielchFilter, HslFilter, OklabFilter, OklchFilter};

fn sample(hue: f32) -> Option<i64> {
    if hue.is_finite() {
        Some(hue.floor() as i64)
    } else {
        None
    }
}

#[test]
fn create_hue_filter_checking_value() {
    assert_eq!(create_hue_filter(Some(10), None), None);
    assert_eq!(create_hue_filter(None, None), None);
    assert_eq!(create_hue_filter(None, Some(90)), Some(Angle::new(0, 90)));
    assert_eq!(create_hue_filter(Some(300), Some(60)), Some(Angle::new(300, 60)));
}

#[test]
fn cielch_filter_checking_value() {
    // A green hue (about 136 degrees in CIELCH) lies in [90, 200), a red one
    // (about 40 degrees) does not.
    let filter = CielchFilter::new(Some(&90), Some(&200));
    assert!(filter.contains_hue(sample(136.0)));
    assert!(!filter.contains_hue(sample(40.0)));
    assert!(!filter.contains_hue(sample(f32::NAN)));

    let filter = CielchFilter::new(None, None);
    assert!(filter.contains_hue(sample(40.0)));
    assert!(filter.contains_hue(sample(f32::NAN)));
    assert_eq!(filter.hue_filter(), None);
}

#[test]
fn oklch_filter_checking_value() {
    let filter = OklchFilter::new(Some(&90), Some(&200));
    assert!(filter.contains_hue(sample(142.5)));
    assert!(!filter.contains_hue(sample(29.2)));
    assert!(filter.contains_hue(sample(199.99)));
    assert!(!filter.contains_hue(sample(200.0)));
    assert_eq!(filter.hue_filter().map(|a| (a.start(), a.end())), Some((90, 200)));

    let filter = OklchFilter::new(None, None);
    assert!(filter.contains_hue(sample(29.2)));
}

#[test]
fn hsl_filter_checking_value() {
    let filter = HslFilter::new(&Some(330), &Some(30));
    assert!(filter.contains_hue(sample(0.0)));
    assert!(filter.contains_hue(sample(359.5)));
    assert!(!filter.contains_hue(sample(120.0)));
    assert!(!filter.contains_hue(sample(f32::INFINITY)));

    let filter = HslFilter::new(&None, &None);
    assert!(filter.contains_hue(sample(120.0)));
}

#[test]
fn rectangular_filters_have_no_hue_range() {
    assert!(CielabFilter::new().hue_filter().is_none());
    assert!(OklabFilter::new().hue_filter().is_none());
}

#[test]
fn hue_filter_keeps_arc_on_values() {
    let filter = OklchFilter::new(Some(&300), Some(&60));
    for d in 0..360i64 {
        let on_arc = (d - 300).rem_euclid(360) < (60i64 - 300).rem_euclid(360);
        assert_eq!(filter.contains_hue(Some(d)), on_arc, "degree {d}");
    }
    let open_ended = OklchFilter::new(Some(&300), None);
    assert!(open_ended.contains_hue(Some(10)));
    assert!(open_ended.contains_hue(None));
}
