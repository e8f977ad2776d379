//! What the gardener makes of a sensor reading.
use vstd::prelude::*;
use crate::garden::garden_types::{
    in_calibrated_range, GardenError, Humidity, WET_0_PERCENT, WET_100_PERCENT,
};

verus! {

/// Raw counts between a fully wet and a fully dry reading.
pub const CALIBRATED_SPAN: u16 = 1026;

/// Turns the outcome of an ADC read into a humidity: a failed read is
/// `ReadingFailed`, a reading outside the calibrated range is `InvalidValue`.
pub fn humidity_from_reading(reading: Option<u16>) -> (r: Result<Humidity, GardenError>)
    ensures
        match reading {
            None => r == Err::<Humidity, GardenError>(GardenError::ReadingFailed),
            Some(v) => Humidity::spec_new_result(v, r),
        },
{
    match reading {
        None => Err(GardenError::ReadingFailed),
        Some(v) => Humidity::new(v),
    }
}

/// How many counts a humidity lies below the dry reading. The moisture
/// percentage is this share of `CALIBRATED_SPAN`; it is never 0 and never more
/// than the whole span.
pub fn moisture_counts(h: &Humidity) -> (r: u16)
    ensures
        r == WET_0_PERCENT - h.value(),
        0 < r <= CALIBRATED_SPAN,
        CALIBRATED_SPAN == WET_0_PERCENT - WET_100_PERCENT,
{
    let raw = h.raw();
    WET_0_PERCENT - raw
}

/// A reading that `Humidity::new` accepts reads back unchanged through
/// `u16::from`.
pub proof fn lemma_reading_round_trip(value: u16, r: Result<Humidity, GardenError>)
    requires
        Humidity::spec_new_result(value, r),
        in_calibrated_range(value),
    ensures
        r matches Ok(h) && <u16 as vstd::std_specs::convert::FromSpec<Humidity>>::from_spec(h) == value,
{
}

/// Every raw reading from 3070 up to 4095 is accepted as itself, and every
/// other reading is refused with `InvalidValue` carrying that reading: the
/// calibrated range is the whole interval, with no gaps.
pub proof fn lemma_new_accepts_exactly_the_interval(value: u16, r: Result<Humidity, GardenError>)
    requires
        Humidity::spec_new_result(value, r),
    ensures
        3070 <= value && value < 4096 ==> (r matches Ok(h) && h.value() == value),
        !(3070 <= value && value < 4096) ==> r == Err::<Humidity, GardenError>(
            GardenError::InvalidValue(value),
        ),
{
}

} // verus!
