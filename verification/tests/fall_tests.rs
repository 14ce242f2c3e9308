use fall_alarm::fall::{
    after_sample, after_status, axis_in_g, board_is_falling, squared_magnitude_of,
    AccelerationSample, PollStep, SensorReading, MAX_SQUARED_MAGNITUDE,
};

fn sample(x_mg: i32, y_mg: i32, z_mg: i32) -> SensorReading {
    SensorReading::Sample(AccelerationSample { x_mg, y_mg, z_mg })
}

#[test]
fn zero_sample_is_not_falling() {
    assert_eq!(squared_magnitude_of(&AccelerationSample { x_mg: 0, y_mg: 0, z_mg: 0 }), 0);
    assert!(!board_is_falling(&sample(0, 0, 0)));
}

#[test]
fn one_g_on_x_is_falling() {
    assert_eq!(squared_magnitude_of(&AccelerationSample { x_mg: 1000, y_mg: 0, z_mg: 0 }), 1);
    assert!(board_is_falling(&sample(1000, 0, 0)));
}

#[test]
fn resting_board_with_gravity_on_z_is_falling() {
    assert_eq!(squared_magnitude_of(&AccelerationSample { x_mg: 0, y_mg: 0, z_mg: 1000 }), 1);
    assert!(board_is_falling(&sample(0, 0, 1000)));
}

#[test]
fn one_g_on_any_axis_in_either_direction_is_falling() {
    assert!(board_is_falling(&sample(0, 1000, 0)));
    assert!(board_is_falling(&sample(-1000, 0, 0)));
    assert!(board_is_falling(&sample(0, -1000, 0)));
    assert!(board_is_falling(&sample(0, 0, -1000)));
    assert!(board_is_falling(&sample(-1234, 15, 999)));
}

#[test]
fn fraction_of_a_g_is_dropped_before_squaring() {
    assert!(!board_is_falling(&sample(999, 999, 999)));
    assert!(!board_is_falling(&sample(-999, -999, -999)));
    assert!(!board_is_falling(&sample(600, 0, 0)));
    assert!(!board_is_falling(&sample(1, -1, 0)));
}

#[test]
fn axis_conversion_rounds_towards_zero() {
    assert_eq!(axis_in_g(0), 0);
    assert_eq!(axis_in_g(999), 0);
    assert_eq!(axis_in_g(1000), 1);
    assert_eq!(axis_in_g(1999), 1);
    assert_eq!(axis_in_g(2000), 2);
    assert_eq!(axis_in_g(-1), 0);
    assert_eq!(axis_in_g(-999), 0);
    assert_eq!(axis_in_g(-1000), -1);
    assert_eq!(axis_in_g(-1999), -1);
    assert_eq!(axis_in_g(i32::MAX), 2_147_483);
    assert_eq!(axis_in_g(i32::MIN), -2_147_483);
}

#[test]
fn squared_magnitude_adds_the_three_squares() {
    let s = AccelerationSample { x_mg: 3000, y_mg: -4000, z_mg: 12_000 };
    assert_eq!(squared_magnitude_of(&s), 169);
    let s = AccelerationSample { x_mg: 1999, y_mg: -2001, z_mg: 999 };
    assert_eq!(squared_magnitude_of(&s), 5);
}

#[test]
fn extreme_samples_do_not_overflow() {
    let top = AccelerationSample { x_mg: i32::MAX, y_mg: i32::MAX, z_mg: i32::MAX };
    assert_eq!(squared_magnitude_of(&top), 13_835_049_705_867);
    assert_eq!(squared_magnitude_of(&top), MAX_SQUARED_MAGNITUDE);
    let bottom = AccelerationSample { x_mg: i32::MIN, y_mg: i32::MIN, z_mg: i32::MIN };
    assert_eq!(squared_magnitude_of(&bottom), MAX_SQUARED_MAGNITUDE);
    assert!(board_is_falling(&SensorReading::Sample(top)));
    assert!(board_is_falling(&SensorReading::Sample(bottom)));
}

#[test]
fn no_new_sample_is_not_falling() {
    assert!(!board_is_falling(&SensorReading::NoNewSample));
}

#[test]
fn bus_error_is_not_falling() {
    assert!(!board_is_falling(&SensorReading::BusError));
}

#[test]
fn no_new_sample_after_a_stable_poll_repeats_the_decision() {
    for previous in [sample(0, 0, 0), sample(999, 0, -5), SensorReading::NoNewSample] {
        let before = board_is_falling(&previous);
        assert!(!before);
        assert_eq!(board_is_falling(&SensorReading::NoNewSample), before);
        assert_eq!(board_is_falling(&SensorReading::BusError), before);
    }
}

#[test]
fn no_new_sample_after_a_fall_is_stable() {
    assert!(board_is_falling(&sample(0, 0, 1000)));
    assert!(!board_is_falling(&SensorReading::NoNewSample));
}

#[test]
fn only_a_fresh_sample_is_read() {
    assert_eq!(after_status(Some(true)), PollStep::ReadSample);
    assert_eq!(after_status(Some(false)), PollStep::Conclude(SensorReading::NoNewSample));
    assert_eq!(after_status(None), PollStep::Conclude(SensorReading::BusError));
}

#[test]
fn poll_ends_with_the_sample_or_the_bus_error() {
    let fresh = AccelerationSample { x_mg: 12, y_mg: -34, z_mg: 1005 };
    assert_eq!(after_sample(Some(fresh)), SensorReading::Sample(fresh));
    assert_eq!(after_sample(None), SensorReading::BusError);
}

#[test]
fn whole_poll_decides_by_the_sample_alone() {
    let decide = |status: Option<bool>, sample: Option<AccelerationSample>| {
        let reading = match after_status(status) {
            PollStep::Conclude(reading) => reading,
            PollStep::ReadSample => after_sample(sample),
        };
        board_is_falling(&reading)
    };
    let falling = AccelerationSample { x_mg: 0, y_mg: 0, z_mg: 1000 };
    let still = AccelerationSample { x_mg: 0, y_mg: 0, z_mg: 0 };
    assert!(decide(Some(true), Some(falling)));
    assert!(!decide(Some(true), Some(still)));
    assert!(!decide(Some(true), None));
    assert!(!decide(Some(false), Some(falling)));
    assert!(!decide(None, Some(falling)));
}
