use crate::endian::{read_u32, u32_from_be};
use crate::error::DataError;
use crate::util::{check_deserialization, checked};
use vstd::prelude::*;
use vstd::std_specs::convert::TryFromSpecImpl;

verus! {

/// A measurement read from the SCD30.
///
/// The sensor reports each reading as an IEEE-754 single-precision number.
/// A field holds the 32 bits of that number as they were received; the reader
/// of a measurement reinterprets them.
#[derive(Debug)]
pub struct Measurement {
    /// Bits of the CO2 concentration in ppm, ranging from 0 to 10.000 ppm.
    pub co2_concentration: u32,
    /// Bits of the ambient temperature in °C, ranging from -40 to 125 °C.
    pub temperature: u32,
    /// Bits of the relative humidity in %, ranging from 0 to 100 %.
    pub humidity: u32,
}

impl Measurement {
    /// The 32 bits of the reading whose first word starts at `at`: the data
    /// bytes of that word hold the upper half, those of the word after it
    /// the lower half, and the two checksum bytes are left out.
    pub open spec fn reading(data: Seq<u8>, at: int) -> u32 {
        u32_from_be(data[at], data[at + 1], data[at + 3], data[at + 4])
    }

    /// The measurement that a response of six words holds. No reading is
    /// turned away for its value.
    pub open spec fn decoded(data: Seq<u8>) -> Result<Self, DataError> {
        match checked(data, 18) {
            Ok(()) => Ok(
                Measurement {
                    co2_concentration: Self::reading(data, 0),
                    temperature: Self::reading(data, 6),
                    humidity: Self::reading(data, 12),
                },
            ),
            Err(error) => Err(error),
        }
    }
}

impl TryFromSpecImpl<&[u8]> for Measurement {
    open spec fn obeys_try_from_spec() -> bool {
        true
    }

    open spec fn try_from_spec(data: &[u8]) -> Result<Self, DataError> {
        Self::decoded(data@)
    }
}

impl TryFrom<&[u8]> for Measurement {
    type Error = DataError;

    /// Converts buffered data to a [Measurement] value.
    ///
    /// # Errors
    ///
    /// - [ReceivedBufferWrongSize](crate::error::DataError::ReceivedBufferWrongSize) if the `data` buffer is not big enough for the data
    ///   that should have been received.
    /// - [CrcFailed](crate::error::DataError::CrcFailed) if the CRC of the received data does not match.
    fn try_from(data: &[u8]) -> (result: Result<Self, DataError>)
        ensures
            result == Self::decoded(data@),
    {
        check_deserialization(data, 18)?;
        let co2_concentration: [u8; 4] = [data[0], data[1], data[3], data[4]];
        let temperature: [u8; 4] = [data[6], data[7], data[9], data[10]];
        let humidity: [u8; 4] = [data[12], data[13], data[15], data[16]];
        Ok(
            Self {
                co2_concentration: read_u32(co2_concentration.as_slice()),
                temperature: read_u32(temperature.as_slice()),
                humidity: read_u32(humidity.as_slice()),
            },
        )
    }
}

} // verus!
