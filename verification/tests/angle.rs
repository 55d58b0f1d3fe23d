use rotary_encoder::Angle;
use rotary_encoder::Direction;

fn degrees_f32(angle: &Angle) -> f32 {
    let r = angle.degrees();
    r.num as f32 / r.den as f32
}

fn radians_f32(angle: &Angle) -> f32 {
    let r = angle.radians();
    r.num as f32 * std::f32::consts::PI / r.den as f32
}

#[test]
fn correct_angle_rotated_back_to_origin_deg() {
    let counts_per_rev = 600;
    let origin_offset = 300;
    let mut angle = Angle::new(counts_per_rev, origin_offset);
    let direction = Direction::Clockwise;

    for _ in 0..300 {
        angle.update(direction);
    }

    assert!(degrees_f32(&angle) > -0.1 && degrees_f32(&angle) < 0.1);
}

#[test]
fn equal_and_opposite_motion_round_trips() {
    let original = Angle::new(2400, 7);
    let mut angle = original;

    for _ in 0..5 {
        angle.update(Direction::Clockwise);
    }
    for _ in 0..5 {
        angle.update(Direction::CounterClockwise);
    }
    assert_eq!(angle, original);

    for _ in 0..5 {
        angle.update(Direction::CounterClockwise);
    }
    for _ in 0..5 {
        angle.update(Direction::Clockwise);
    }
    assert_eq!(angle, original);
}

#[test]
fn half_revolution_reports_180_degrees() {
    let mut angle = Angle::new(2400, 0);
    for _ in 0..1200 {
        angle.update(Direction::Clockwise);
    }
    let degrees = degrees_f32(&angle);
    assert!(degrees > -180.1 && degrees < -179.9);

    let mut angle = Angle::new(2400, 0);
    for _ in 0..1200 {
        angle.update(Direction::CounterClockwise);
    }
    let degrees = degrees_f32(&angle);
    assert!(degrees > 179.9 && degrees < 180.1);
}

#[test]
fn degrees_and_radians_are_consistent() {
    for offset in [-1200, -1, 0, 1, 300, 1200, 2400, 30000] {
        let angle = Angle::new(2400, offset);
        let degrees = degrees_f32(&angle);
        let radians = radians_f32(&angle);
        let expected = degrees * std::f32::consts::PI / 180.0;
        assert!((radians - expected).abs() <= 0.0001 * expected.abs() + 0.0001);
    }
}

#[test]
fn degrees_is_an_exact_ratio() {
    let angle = Angle::new(360, 90);
    let ratio = angle.degrees();
    assert_eq!(ratio.num, 32400);
    assert_eq!(ratio.den, 360);
    assert_eq!(degrees_f32(&angle), 90.0);
}

#[test]
fn counter_saturates_at_the_type_ends() {
    let mut angle = Angle::new(100, i16::MIN);
    angle.update(Direction::Clockwise);
    assert_eq!(angle.counts, i16::MIN);
    angle.update(Direction::CounterClockwise);
    assert_eq!(angle.counts, i16::MIN + 1);

    let mut angle = Angle::new(100, i16::MAX);
    angle.update(Direction::CounterClockwise);
    assert_eq!(angle.counts, i16::MAX);
    angle.update(Direction::Clockwise);
    assert_eq!(angle.counts, i16::MAX - 1);
}

#[test]
fn sub_returns_the_signed_difference() {
    let a = Angle::new(600, 100);
    let b = Angle::new(600, 140);
    let delta = a.sub(b);
    assert_eq!(delta.counts, -40);
    assert_eq!(delta.counts_per_rev, 600);
}

#[test]
fn checked_sub_refuses_mismatched_scales() {
    let a = Angle::new(600, 40);
    let b = Angle::new(2400, 40);
    assert!(a.checked_sub(b).is_none());

    let c = Angle::new(600, 10);
    let delta = a.checked_sub(c).unwrap();
    assert_eq!(delta.counts, 30);
    assert_eq!(delta.counts_per_rev, 600);
}
