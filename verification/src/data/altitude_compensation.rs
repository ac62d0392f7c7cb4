use crate::endian::{read_u16, to_be_bytes, u16_be_bytes};
use crate::error::{viewed, DataError};
use crate::util::{check_deserialization, checked_word, lemma_word_round_trip, word_of};
use vstd::prelude::*;
use vstd::std_specs::convert::{FromSpecImpl, TryFromSpecImpl};

verus! {

/// Altitude compensation value ranging from 0 m to 65535 m above sea level.
#[derive(Debug, PartialEq)]
pub struct AltitudeCompensation(u16);

impl View for AltitudeCompensation {
    type V = u16;

    /// The altitude in m above sea level.
    closed spec fn view(&self) -> u16 {
        self.0
    }
}

impl AltitudeCompensation {
    /// Returns a big endian byte representation of the altitude compensation value.
    pub fn to_be_bytes(&self) -> (bytes: [u8; 2])
        ensures
            bytes@ == u16_be_bytes(self@),
    {
        to_be_bytes(self.0)
    }

    /// The altitude in m above sea level.
    pub fn value(&self) -> (altitude: u16)
        ensures
            altitude == self@,
    {
        self.0
    }
}

impl FromSpecImpl<u16> for AltitudeCompensation {
    open spec fn obeys_from_spec() -> bool {
        true
    }

    closed spec fn from_spec(altitude: u16) -> Self {
        AltitudeCompensation(altitude)
    }
}

impl From<u16> for AltitudeCompensation {
    /// Every altitude that fits into 16 bits is accepted.
    fn from(altitude: u16) -> (compensation: Self)
        ensures
            compensation@ == altitude,
    {
        Self(altitude)
    }
}

impl TryFromSpecImpl<&[u8]> for AltitudeCompensation {
    open spec fn obeys_try_from_spec() -> bool {
        true
    }

    closed spec fn try_from_spec(data: &[u8]) -> Result<Self, DataError> {
        match checked_word(data@) {
            Ok(altitude) => Ok(AltitudeCompensation(altitude)),
            Err(error) => Err(error),
        }
    }
}

impl TryFrom<&[u8]> for AltitudeCompensation {
    type Error = DataError;

    /// Converts buffered data to an [AltitudeCompensation] value.
    ///
    /// # Errors
    ///
    /// - [ReceivedBufferWrongSize](crate::error::DataError::ReceivedBufferWrongSize) if the `data` buffer is not big enough for the data
    ///   that should have been received.
    /// - [CrcFailed](crate::error::DataError::CrcFailed) if the CRC of the received data does not match.
    fn try_from(data: &[u8]) -> (result: Result<Self, DataError>)
        ensures
            viewed(result) == checked_word(data@),
    {
        check_deserialization(data, 3)?;
        Ok(Self(read_u16(&data[0..2])))
    }
}

impl AltitudeCompensation {
    /// Round trip: the value, serialized and sent back with the checksum of
    /// its bytes, deserializes to itself.
    pub proof fn lemma_round_trip(self)
        ensures
            checked_word(word_of(self@)) == Ok::<u16, DataError>(self@),
    {
        lemma_word_round_trip(self@);
    }
}

} // verus!
