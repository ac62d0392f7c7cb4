use crate::endian::{read_u16, to_be_bytes, u16_be_bytes};
use crate::error::{viewed, DataError};
use crate::util::{check_deserialization, checked_word, lemma_word_round_trip, word_of};
use vstd::prelude::*;
use vstd::std_specs::convert::TryFromSpecImpl;

verus! {

/// Lowest measurement interval that the sensor accepts, in s.
pub const MIN_MEASUREMENT_INTERVAL: u16 = 2;

/// Highest measurement interval that the sensor accepts, in s.
pub const MAX_MEASUREMENT_INTERVAL: u16 = 1800;

/// Name of the parameter in errors.
pub const MEASUREMENT_INTERVAL_VAL: &'static str = "Measurement interval";

/// Unit of the parameter in errors.
pub const INTERVAL_UNIT: &'static str = "s";

/// A runtime checked representation of the measurement interval configurable for the
/// continuous measurements. Accepted value range: [2...1800] s.
#[derive(Debug, PartialEq)]
pub struct MeasurementInterval(u16);

impl View for MeasurementInterval {
    type V = u16;

    /// The measurement interval in s.
    closed spec fn view(&self) -> u16 {
        self.0
    }
}

impl MeasurementInterval {
    /// The error that reports a value outside the accepted range.
    pub open spec fn out_of_range() -> DataError {
        DataError::ValueOutOfRange {
            parameter: MEASUREMENT_INTERVAL_VAL,
            min: MIN_MEASUREMENT_INTERVAL,
            max: MAX_MEASUREMENT_INTERVAL,
            unit: INTERVAL_UNIT,
        }
    }

    /// The verdict on a value given in s: it is accepted as it is
    /// where it lies in the accepted range and turned away otherwise.
    pub open spec fn validated(interval: u16) -> Result<u16, DataError> {
        if MIN_MEASUREMENT_INTERVAL <= interval <= MAX_MEASUREMENT_INTERVAL {
            Ok(interval)
        } else {
            Err(Self::out_of_range())
        }
    }

    /// Returns a big endian byte representation of the measurement interval.
    pub fn to_be_bytes(&self) -> (bytes: [u8; 2])
        ensures
            bytes@ == u16_be_bytes(self@),
    {
        to_be_bytes(self.0)
    }

    /// The measurement interval in s.
    pub fn value(&self) -> (interval: u16)
        ensures
            interval == self@,
    {
        self.0
    }
}

impl TryFromSpecImpl<u16> for MeasurementInterval {
    open spec fn obeys_try_from_spec() -> bool {
        true
    }

    closed spec fn try_from_spec(interval: u16) -> Result<Self, DataError> {
        match Self::validated(interval) {
            Ok(accepted) => Ok(MeasurementInterval(accepted)),
            Err(error) => Err(error),
        }
    }
}

impl TryFrom<u16> for MeasurementInterval {
    type Error = DataError;

    /// Converts a u16 value to a [MeasurementInterval]. The value must be between 2 and 1800 in s.
    ///
    /// # Errors
    ///
    /// - [ValueOutOfRange](crate::error::DataError::ValueOutOfRange) if `interval` is lower than 2 or higher than
    ///   1800 s.
    fn try_from(interval: u16) -> (result: Result<Self, DataError>)
        ensures
            viewed(result) == Self::validated(interval),
    {
        if interval < MIN_MEASUREMENT_INTERVAL || interval > MAX_MEASUREMENT_INTERVAL {
            Err(
                DataError::ValueOutOfRange {
                    parameter: MEASUREMENT_INTERVAL_VAL,
                    min: MIN_MEASUREMENT_INTERVAL,
                    max: MAX_MEASUREMENT_INTERVAL,
                    unit: INTERVAL_UNIT,
                },
            )
        } else {
            Ok(Self(interval))
        }
    }
}

impl TryFromSpecImpl<&[u8]> for MeasurementInterval {
    open spec fn obeys_try_from_spec() -> bool {
        true
    }

    closed spec fn try_from_spec(data: &[u8]) -> Result<Self, DataError> {
        match checked_word(data@) {
            Ok(received) => Ok(MeasurementInterval(received)),
            Err(error) => Err(error),
        }
    }
}

impl TryFrom<&[u8]> for MeasurementInterval {
    type Error = DataError;

    /// Converts buffered data to a [MeasurementInterval]. What the sensor reports is taken
    /// as it comes: the accepted range binds what is sent, not what is
    /// received.
    ///
    /// # Errors
    ///
    /// - [ReceivedBufferWrongSize](crate::error::DataError::ReceivedBufferWrongSize) if the `data` buffer is not big enough for the data
    ///   that should have been received.
    /// - [CrcFailed](crate::error::DataError::CrcFailed) if the CRC of the received data does not match.
    fn try_from(data: &[u8]) -> (result: Result<Self, DataError>)
        ensures
            viewed(result) == checked_word(data@),
    {
        check_deserialization(data, 3)?;
        Ok(Self(read_u16(&data[0..2])))
    }
}

impl MeasurementInterval {
    /// Round trip: the value, serialized and sent back with the checksum of
    /// its bytes, deserializes to itself.
    pub proof fn lemma_round_trip(self)
        ensures
            checked_word(word_of(self@)) == Ok::<u16, DataError>(self@),
    {
        lemma_word_round_trip(self@);
    }
}

} // verus!
