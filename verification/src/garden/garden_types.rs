use vstd::prelude::*;

verus! {

/// Raw ADC reading of the moisture sensor when the soil is fully wet.
pub const WET_100_PERCENT: u16 = 3070;

/// Raw ADC reading of the moisture sensor when the soil is fully dry
/// (first value past the calibrated range).
pub const WET_0_PERCENT: u16 = 4096;

/// A raw reading lies in the calibrated range `[WET_100_PERCENT, WET_0_PERCENT)`.
pub open spec fn in_calibrated_range(value: u16) -> bool {
    WET_100_PERCENT <= value && value < WET_0_PERCENT
}

/// Errors of the moisture sensor interaction.
#[derive(Debug, Clone, Copy, PartialEq, Eq, Structural)]
pub enum GardenError {
    /// The ADC could not deliver a reading.
    ReadingFailed,
    /// The reading lies outside the calibrated range.
    InvalidValue(u16),
}

/// A raw moisture reading that lies in the calibrated range.
#[derive(Debug)]
pub struct Humidity(u16);

impl Humidity {
    /// The raw reading held.
    pub closed spec fn value(self) -> u16 {
        self.0
    }

    #[verifier::type_invariant]
    spec fn calibrated(self) -> bool {
        in_calibrated_range(self.0)
    }

    /// What `new` gives back for a raw reading.
    pub open spec fn spec_new_result(value: u16, r: Result<Humidity, GardenError>) -> bool {
        if in_calibrated_range(value) {
            r matches Ok(h) && h.value() == value
        } else {
            r == Err::<Humidity, GardenError>(GardenError::InvalidValue(value))
        }
    }

    /// Validates a raw reading: accepted exactly when it lies in
    /// `[WET_100_PERCENT, WET_0_PERCENT)`, refused with `InvalidValue` otherwise.
    pub fn new(value: u16) -> (r: Result<Humidity, GardenError>)
        ensures
            Self::spec_new_result(value, r),
    {
        if value < WET_100_PERCENT || value >= WET_0_PERCENT {
            return Err(GardenError::InvalidValue(value));
        }
        Ok(Humidity(value))
    }

    /// The raw reading, which always lies in the calibrated range.
    pub fn raw(&self) -> (r: u16)
        ensures
            r == self.value(),
            in_calibrated_range(r),
    {
        proof {
            use_type_invariant(self);
        }
        self.0
    }
}

impl From<Humidity> for u16 {
    fn from(value: Humidity) -> (r: u16) {
        value.0
    }
}

impl vstd::std_specs::convert::FromSpecImpl<Humidity> for u16 {
    open spec fn obeys_from_spec() -> bool {
        true
    }

    open spec fn from_spec(v: Humidity) -> u16 {
        v.value()
    }
}

} // verus!
