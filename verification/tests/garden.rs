use garden_wifi::garden::garden_types::{GardenError, Humidity, WET_0_PERCENT, WET_100_PERCENT};
use garden_wifi::garden::gardener::{humidity_from_reading, moisture_counts, CALIBRATED_SPAN};

#[test]
fn calibration_constants() {
    assert_eq!(WET_100_PERCENT, 3070);
    assert_eq!(WET_0_PERCENT, 4096);
    assert_eq!(CALIBRATED_SPAN, WET_0_PERCENT - WET_100_PERCENT);
}

#[test]
fn humidity_accepts_the_calibrated_range() {
    for v in [3070u16, 3071, 3500, 4000, 4095] {
        let h = Humidity::new(v).expect("in range");
        assert_eq!(h.raw(), v);
        assert_eq!(u16::from(h), v);
    }
}

#[test]
fn humidity_refuses_readings_outside_the_range() {
    for v in [0u16, 1, 3069, 4096, 4097, u16::MAX] {
        assert_eq!(Humidity::new(v).unwrap_err(), GardenError::InvalidValue(v));
    }
}

#[test]
fn failed_read_is_reading_failed() {
    assert_eq!(humidity_from_reading(None).unwrap_err(), GardenError::ReadingFailed);
}

#[test]
fn reading_goes_through_validation() {
    assert_eq!(u16::from(humidity_from_reading(Some(3800)).unwrap()), 3800);
    assert_eq!(humidity_from_reading(Some(3000)).unwrap_err(), GardenError::InvalidValue(3000));
    assert_eq!(humidity_from_reading(Some(4096)).unwrap_err(), GardenError::InvalidValue(4096));
}

#[test]
fn moisture_counts_at_the_ends_of_the_range() {
    assert_eq!(moisture_counts(&Humidity::new(3070).unwrap()), 1026);
    assert_eq!(moisture_counts(&Humidity::new(4095).unwrap()), 1);
    assert_eq!(moisture_counts(&Humidity::new(3583).unwrap()), 513);
}

#[test]
fn moisture_percentage_from_counts() {
    let percent = |v: u16| {
        let h = Humidity::new(v).unwrap();
        (moisture_counts(&h) as f32 / CALIBRATED_SPAN as f32) * 100.0
    };
    assert_eq!(percent(3070), 100.0);
    assert!((percent(3583) - 50.0).abs() < 1e-4);
    assert!(percent(4095) > 0.0);
}
