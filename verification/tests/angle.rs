use pxtally::angle::{rotate_value, Angle, DegreeRange};

#[test]
fn check_value() {
    let result = Angle::new(350, 400);
    assert_eq!(result.start(), 350);
    assert_eq!(result.range_1(), DegreeRange { start: 350, end: 360 });
    assert_eq!(result.range_2(), Some(DegreeRange { start: 0, end: 40 }));

    let result = Angle::new(50, 90);
    assert_eq!(result.start(), 50);
    assert_eq!(result.range_1(), DegreeRange { start: 50, end: 90 });
    assert_eq!(result.range_2(), None);
}

#[test]
fn counter_checking_value() {
    let result = Angle::new(350, 400);
    assert!(result.contains(359));
    assert!(result.contains((0.1f32).floor() as i64));
    assert!(!result.contains(349));
    assert!(!result.contains(41));

    let result = Angle::new(50, 90);
    assert!(result.contains(51));
    assert!(result.contains(89));
    assert!(!result.contains(49));
    assert!(!result.contains((90.1f32).floor() as i64));

    let result = Angle::new(350, 41);
    assert!(result.contains(40));

    let result = Angle::new(50, 91);
    assert!(result.contains(90));
}

#[test]
fn angle_end_checking_value() {
    let result = Angle::new(350, 400);
    assert_eq!(result.end(), 40);

    let result = Angle::new(50, 90);
    assert_eq!(result.end(), 90);

    let result = Angle::new(350, 361);
    assert_eq!(result.end(), rotate_value(361));
    assert_eq!(result.end(), 1);
}

#[test]
fn rotate_value_checking_value() {
    assert_eq!(rotate_value(0), 0);
    assert_eq!(rotate_value(359), 359);
    assert_eq!(rotate_value(-10), 350);
    assert_eq!(rotate_value(380), 20);
    assert_eq!(rotate_value(360), 0);
    assert_eq!(rotate_value(800), 440);
}

#[test]
fn angle_swept_arc_on_values() {
    // The interval from 300 to 60 degrees is the arc through 0.
    let wrapped = Angle::new(300, 60);
    for d in 0..360i64 {
        let swept = (d - 300).rem_euclid(360) < (60i64 - 300).rem_euclid(360);
        assert_eq!(wrapped.contains(d), swept, "degree {d}");
    }
}

#[test]
fn angle_complement_on_values() {
    let forward = Angle::new(90, 200);
    let backward = Angle::new(200, 90);
    for d in 0..360i64 {
        assert!(forward.contains(d) != backward.contains(d), "degree {d}");
    }
    let empty = Angle::new(120, 120);
    for d in 0..360i64 {
        assert!(!empty.contains(d));
    }
}

#[test]
fn angle_one_turn_on_values() {
    let angle = Angle::new(350, 20);
    for d in 0..360i64 {
        assert_eq!(angle.contains(d - 360), angle.contains(d));
        assert_eq!(angle.contains(d + 360), angle.contains(d));
    }
}

#[test]
fn angle_far_off_wheel() {
    // Only one turn is undone, as for the interval bounds.
    let angle = Angle::new(0, 359);
    assert!(!angle.contains(720 + 10));
    assert!(!angle.contains(-720));
}
