use crate::endian::{read_u16, to_be_bytes, u16_be_bytes};
use crate::error::{viewed, DataError};
use crate::util::{check_deserialization, checked_word, lemma_word_round_trip, word_of};
use vstd::prelude::*;
use vstd::std_specs::convert::TryFromSpecImpl;

verus! {

/// Lower limit of the temperature offset as errors report it.
pub const MIN_TEMPERATURE_OFFSET: u16 = 0;

/// Upper limit of the temperature offset as errors report it.
pub const MAX_TEMPERATURE_OFFSET: u16 = u16::MAX;

/// Name of the parameter in errors.
pub const TEMPERATURE_OFFSET_VAL: &'static str = "Temperature offset";

/// Unit of the parameter in errors.
pub const TEMPERATURE_UNIT: &'static str = "°C";

/// The temperature offset that compensates for the self-heating of the
/// components around the sensor. It is held the way the sensor takes it: as a
/// whole number of hundredths of a degree Celsius.
#[derive(Debug, PartialEq)]
pub struct TemperatureOffset(u16);

impl View for TemperatureOffset {
    type V = u16;

    /// The offset in hundredths of a degree Celsius.
    closed spec fn view(&self) -> u16 {
        self.0
    }
}

impl TemperatureOffset {
    /// The error that reports an offset outside the accepted range.
    pub open spec fn out_of_range_spec() -> DataError {
        DataError::ValueOutOfRange {
            parameter: TEMPERATURE_OFFSET_VAL,
            min: MIN_TEMPERATURE_OFFSET,
            max: MAX_TEMPERATURE_OFFSET,
            unit: TEMPERATURE_UNIT,
        }
    }

    /// The error that reports an offset outside the accepted range.
    #[verifier::when_used_as_spec(out_of_range_spec)]
    pub fn out_of_range() -> (error: DataError)
        ensures
            error == Self::out_of_range_spec(),
    {
        DataError::ValueOutOfRange {
            parameter: TEMPERATURE_OFFSET_VAL,
            min: MIN_TEMPERATURE_OFFSET,
            max: MAX_TEMPERATURE_OFFSET,
            unit: TEMPERATURE_UNIT,
        }
    }

    /// The offset of `hundredths` hundredths of a degree Celsius. Every value
    /// that fits into 16 bits is one that the sensor takes.
    pub fn from_hundredths(hundredths: u16) -> (offset: Self)
        ensures
            offset@ == hundredths,
    {
        Self(hundredths)
    }

    /// The offset in hundredths of a degree Celsius.
    pub fn hundredths(&self) -> (hundredths: u16)
        ensures
            hundredths == self@,
    {
        self.0
    }

    /// Returns a big endian byte representation of the temperature offset.
    pub fn to_be_bytes(&self) -> (bytes: [u8; 2])
        ensures
            bytes@ == u16_be_bytes(self@),
    {
        to_be_bytes(self.0)
    }
}

impl TryFromSpecImpl<&[u8]> for TemperatureOffset {
    open spec fn obeys_try_from_spec() -> bool {
        true
    }

    closed spec fn try_from_spec(data: &[u8]) -> Result<Self, DataError> {
        match checked_word(data@) {
            Ok(received) => Ok(TemperatureOffset(received)),
            Err(error) => Err(error),
        }
    }
}

impl TryFrom<&[u8]> for TemperatureOffset {
    type Error = DataError;

    /// Converts buffered data to a [TemperatureOffset] value.
    ///
    /// # Errors
    ///
    /// - [ReceivedBufferWrongSize](crate::error::DataError::ReceivedBufferWrongSize) if the `data` buffer is not big enough for the data
    ///   that should have been received.
    /// - [CrcFailed](crate::error::DataError::CrcFailed) if the CRC of the received data does not match.
    fn try_from(data: &[u8]) -> (result: Result<Self, DataError>)
        ensures
            viewed(result) == checked_word(data@),
    {
        check_deserialization(data, 3)?;
        Ok(Self(read_u16(&data[0..2])))
    }
}

impl TemperatureOffset {
    /// Round trip: the value, serialized and sent back with the checksum of
    /// its bytes, deserializes to itself.
    pub proof fn lemma_round_trip(self)
        ensures
            checked_word(word_of(self@)) == Ok::<u16, DataError>(self@),
    {
        lemma_word_round_trip(self@);
    }
}

} // verus!
