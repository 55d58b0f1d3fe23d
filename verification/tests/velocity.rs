use rotary_encoder::Angle;
use rotary_encoder::Error;
use rotary_encoder::Ratio;
use rotary_encoder::Velocity;

fn ratio_f32(ratio: Ratio) -> f32 {
    ratio.num as f32 / ratio.den as f32
}

fn pi_ratio_f32(ratio: Ratio) -> f32 {
    ratio.num as f32 * std::f32::consts::PI / ratio.den as f32
}

#[test]
fn correct_velocity_calculations() {
    let counts_per_rev = 2400;
    let origin_offset = 0;
    let initial_angle = Angle::new(counts_per_rev, origin_offset);
    let initial_time_since_epoch_milli_sec = 1_u32;
    let angle_180_deg = Angle::new(counts_per_rev, (counts_per_rev / 2) as i16);
    let final_time_since_epoch_milli_sec = 1_001_u32;
    let mut velocity = Velocity::new(
        initial_time_since_epoch_milli_sec,
        initial_time_since_epoch_milli_sec,
        initial_angle,
        initial_angle,
    );

    velocity.update(angle_180_deg, final_time_since_epoch_milli_sec);

    let velocity_degrees_per_sec = ratio_f32(velocity.degrees_per_sec().unwrap());
    println!("velocity.degrees_per_sec() = {}", velocity_degrees_per_sec);
    assert!(velocity_degrees_per_sec < 180.1 && velocity_degrees_per_sec > 179.9);

    velocity = Velocity::new(
        initial_time_since_epoch_milli_sec,
        initial_time_since_epoch_milli_sec,
        initial_angle,
        initial_angle,
    );
    velocity.update(angle_180_deg, final_time_since_epoch_milli_sec);
    let velocity_radians_per_sec = pi_ratio_f32(velocity.radians_per_sec().unwrap());
    println!("velocity.radians_per_sec() = {}", velocity_radians_per_sec);
    assert!(
        velocity_radians_per_sec < (std::f32::consts::PI + 0.01)
            && velocity_radians_per_sec > (std::f32::consts::PI - 0.01)
    )
}

#[test]
fn inverted_window_reports_the_overflow_error() {
    let angle = Angle::new(2400, 0);
    let velocity = Velocity::new(1_001, 1, angle, angle);

    assert_eq!(
        velocity.degrees_per_sec(),
        Err(Error::VelocityArithmeticOverflowWouldOccur)
    );
    assert_eq!(
        velocity.radians_per_sec(),
        Err(Error::VelocityArithmeticOverflowWouldOccur)
    );
}

#[test]
fn zero_duration_window_yields_an_infinite_rate() {
    let initial = Angle::new(2400, 0);
    let moved = Angle::new(2400, 600);
    let velocity = Velocity::new(500, 500, initial, moved);

    let ratio = velocity.degrees_per_sec().unwrap();
    assert_eq!(ratio.den, 0);
    assert!(ratio_f32(ratio).is_infinite());
}

#[test]
fn update_slides_the_window_forward() {
    let first = Angle::new(600, 0);
    let second = Angle::new(600, 10);
    let third = Angle::new(600, 25);
    let mut velocity = Velocity::new(1, 5, first, second);

    velocity.update(third, 9);

    assert_eq!(velocity.initial_time_since_epoch_milli_sec(), 5);
    assert_eq!(velocity.final_time_since_epoch_milli_sec(), 9);
    assert_eq!(velocity.initial_angle(), second);
    assert_eq!(velocity.final_angle(), third);
}

#[test]
fn update_records_an_out_of_order_sample() {
    let angle = Angle::new(600, 0);
    let later = Angle::new(600, 3);
    let mut velocity = Velocity::new(100, 200, angle, angle);

    velocity.update(later, 150);

    assert_eq!(velocity.initial_time_since_epoch_milli_sec(), 200);
    assert_eq!(velocity.final_time_since_epoch_milli_sec(), 150);
    assert_eq!(velocity.final_angle(), later);
    assert_eq!(
        velocity.degrees_per_sec(),
        Err(Error::VelocityArithmeticOverflowWouldOccur)
    );
}

#[test]
fn accessors_expose_the_window_for_reconstruction() {
    let initial = Angle::new(2400, 10);
    let fin = Angle::new(2400, 20);
    let velocity = Velocity::new(3, 7, initial, fin);

    assert_eq!(velocity.initial_time_since_epoch_milli_sec(), 3);
    assert_eq!(velocity.final_time_since_epoch_milli_sec(), 7);
    assert_eq!(velocity.initial_angle(), initial);
    assert_eq!(velocity.final_angle(), fin);
}
