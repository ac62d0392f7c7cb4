use crate::endian::{read_u16, to_be_bytes, u16_be_bytes};
use crate::error::{viewed, DataError};
use crate::util::{check_deserialization, checked_word, lemma_word_round_trip, word_of};
use vstd::prelude::*;
use vstd::std_specs::convert::TryFromSpecImpl;

verus! {

/// Lowest forced recalibration value that the sensor accepts, in ppm.
pub const MIN_FRC: u16 = 400;

/// Highest forced recalibration value that the sensor accepts, in ppm.
pub const MAX_FRC: u16 = 2000;

/// Name of the parameter in errors.
pub const FRC_VAL: &'static str = "Forced recalibration value";

/// Unit of the parameter in errors.
pub const PARTICLE_UNIT: &'static str = "ppm";

/// A runtime checked representation of the forced recalibration value. Accepted value range:
/// [400...2000] ppm.
#[derive(Debug, PartialEq)]
pub struct ForcedRecalibrationValue(u16);

impl View for ForcedRecalibrationValue {
    type V = u16;

    /// The forced recalibration value in ppm.
    closed spec fn view(&self) -> u16 {
        self.0
    }
}

impl ForcedRecalibrationValue {
    /// The error that reports a value outside the accepted range.
    pub open spec fn out_of_range() -> DataError {
        DataError::ValueOutOfRange {
            parameter: FRC_VAL,
            min: MIN_FRC,
            max: MAX_FRC,
            unit: PARTICLE_UNIT,
        }
    }

    /// The verdict on a value given in ppm: it is accepted as it is
    /// where it lies in the accepted range and turned away otherwise.
    pub open spec fn validated(frc: u16) -> Result<u16, DataError> {
        if MIN_FRC <= frc <= MAX_FRC {
            Ok(frc)
        } else {
            Err(Self::out_of_range())
        }
    }

    /// Returns a big endian byte representation of the forced recalibration value.
    pub fn to_be_bytes(&self) -> (bytes: [u8; 2])
        ensures
            bytes@ == u16_be_bytes(self@),
    {
        to_be_bytes(self.0)
    }

    /// The forced recalibration value in ppm.
    pub fn value(&self) -> (frc: u16)
        ensures
            frc == self@,
    {
        self.0
    }
}

impl TryFromSpecImpl<u16> for ForcedRecalibrationValue {
    open spec fn obeys_try_from_spec() -> bool {
        true
    }

    closed spec fn try_from_spec(frc: u16) -> Result<Self, DataError> {
        match Self::validated(frc) {
            Ok(accepted) => Ok(ForcedRecalibrationValue(accepted)),
            Err(error) => Err(error),
        }
    }
}

impl TryFrom<u16> for ForcedRecalibrationValue {
    type Error = DataError;

    /// Converts a u16 value to a [ForcedRecalibrationValue]. The value must be between 400 and 2000 in ppm.
    ///
    /// # Errors
    ///
    /// - [ValueOutOfRange](crate::error::DataError::ValueOutOfRange) if `frc` is lower than 400 or higher than
    ///   2000 ppm.
    fn try_from(frc: u16) -> (result: Result<Self, DataError>)
        ensures
            viewed(result) == Self::validated(frc),
    {
        if frc < MIN_FRC || frc > MAX_FRC {
            Err(
                DataError::ValueOutOfRange {
                    parameter: FRC_VAL,
                    min: MIN_FRC,
                    max: MAX_FRC,
                    unit: PARTICLE_UNIT,
                },
            )
        } else {
            Ok(Self(frc))
        }
    }
}

impl TryFromSpecImpl<&[u8]> for ForcedRecalibrationValue {
    open spec fn obeys_try_from_spec() -> bool {
        true
    }

    closed spec fn try_from_spec(data: &[u8]) -> Result<Self, DataError> {
        match checked_word(data@) {
            Ok(received) => Ok(ForcedRecalibrationValue(received)),
            Err(error) => Err(error),
        }
    }
}

impl TryFrom<&[u8]> for ForcedRecalibrationValue {
    type Error = DataError;

    /// Converts buffered data to a [ForcedRecalibrationValue]. What the sensor reports is taken
    /// as it comes: the accepted range binds what is sent, not what is
    /// received.
    ///
    /// # Errors
    ///
    /// - [ReceivedBufferWrongSize](crate::error::DataError::ReceivedBufferWrongSize) if the `data` buffer is not big enough for the data
    ///   that should have been received.
    /// - [CrcFailed](crate::error::DataError::CrcFailed) if the CRC of the received data does not match.
    fn try_from(data: &[u8]) -> (result: Result<Self, DataError>)
        ensures
            viewed(result) == checked_word(data@),
    {
        check_deserialization(data, 3)?;
        Ok(Self(read_u16(&data[0..2])))
    }
}

impl ForcedRecalibrationValue {
    /// Round trip: the value, serialized and sent back with the checksum of
    /// its bytes, deserializes to itself.
    pub proof fn lemma_round_trip(self)
        ensures
            checked_word(word_of(self@)) == Ok::<u16, DataError>(self@),
    {
        lemma_word_round_trip(self@);
    }
}

} // verus!
