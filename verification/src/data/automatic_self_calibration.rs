use crate::endian::{to_be_bytes, u16_be_bytes};
use crate::error::DataError;
use crate::util::{check_deserialization, checked, lemma_word_round_trip, word_of};
use vstd::prelude::*;
use vstd::std_specs::convert::TryFromSpecImpl;

verus! {

/// Name of the parameter in errors.
pub const ASC_VALUE: &'static str = "Automatic self-calibration";

/// The values that the sensor may report, as errors describe them.
pub const ASC_EXPECTED: &'static str = "0 or 1";

/// Arguments for configuring the automatic self calibration.
#[derive(Clone, Copy, Debug, PartialEq)]
pub enum AutomaticSelfCalibration {
    /// Active automatic self calibration
    Active,
    /// Inactive automatic self calibration
    Inactive,
}

impl View for AutomaticSelfCalibration {
    type V = u16;

    /// The number that stands for the setting on the wire.
    open spec fn view(&self) -> u16 {
        match self {
            AutomaticSelfCalibration::Active => 1,
            AutomaticSelfCalibration::Inactive => 0,
        }
    }
}

impl AutomaticSelfCalibration {
    /// The error that reports a setting byte other than 0 and 1.
    pub open spec fn unexpected(actual: u8) -> DataError {
        DataError::UnexpectedValueReceived {
            parameter: ASC_VALUE,
            expected: ASC_EXPECTED,
            actual: actual as u16,
        }
    }

    /// The setting that a response holds. The low data byte decides: 1 says
    /// that the calibration is active, 0 that it is not, and any other value
    /// is reported as unexpected.
    pub open spec fn decoded(data: Seq<u8>) -> Result<Self, DataError> {
        match checked(data, 3) {
            Ok(()) => if data[1] == 1 {
                Ok(AutomaticSelfCalibration::Active)
            } else if data[1] == 0 {
                Ok(AutomaticSelfCalibration::Inactive)
            } else {
                Err(Self::unexpected(data[1]))
            },
            Err(error) => Err(error),
        }
    }

    /// Returns a big endian byte representation of the automatic self calibration value.
    pub fn to_be_bytes(&self) -> (bytes: [u8; 2])
        ensures
            bytes@ == u16_be_bytes(self@),
    {
        match self {
            AutomaticSelfCalibration::Active => to_be_bytes(1),
            AutomaticSelfCalibration::Inactive => to_be_bytes(0),
        }
    }
}

impl TryFromSpecImpl<&[u8]> for AutomaticSelfCalibration {
    open spec fn obeys_try_from_spec() -> bool {
        true
    }

    open spec fn try_from_spec(data: &[u8]) -> Result<Self, DataError> {
        Self::decoded(data@)
    }
}

impl TryFrom<&[u8]> for AutomaticSelfCalibration {
    type Error = DataError;

    /// Converts buffered data to an [AutomaticSelfCalibration] value. If `Active` if a `1` is
    /// received, `Inactive` if a `0` is received.
    ///
    /// # Errors
    ///
    /// - [ReceivedBufferWrongSize](crate::error::DataError::ReceivedBufferWrongSize) if the `data` buffer is not big enough for the data
    ///   that should have been received.
    /// - [CrcFailed](crate::error::DataError::CrcFailed) if the CRC of the received data does not match.
    /// - [UnexpectedValueReceived](crate::error::DataError::UnexpectedValueReceived) if the received value is not `0` or `1`.
    fn try_from(data: &[u8]) -> (result: Result<Self, DataError>)
        ensures
            result == Self::decoded(data@),
    {
        check_deserialization(data, 3)?;
        match data[1] {
            1 => Ok(Self::Active),
            0 => Ok(Self::Inactive),
            val => Err(
                DataError::UnexpectedValueReceived {
                    parameter: ASC_VALUE,
                    expected: ASC_EXPECTED,
                    actual: val as u16,
                },
            ),
        }
    }
}

impl AutomaticSelfCalibration {
    /// Round trip: the setting, serialized and sent back with the checksum
    /// of its bytes, deserializes to itself.
    pub proof fn lemma_round_trip(self)
        ensures
            Self::decoded(word_of(self@)) == Ok::<Self, DataError>(self),
    {
        lemma_word_round_trip(self@);
        assert(word_of(self@)[1] == self@);
    }
}

} // verus!
