use crate::error::DataError;
use crate::util::{check_deserialization, checked};
use vstd::prelude::*;
use vstd::std_specs::convert::TryFromSpecImpl;

verus! {

/// Name of the parameter in errors.
pub const DATA_STATUS_VALUE: &'static str = "Data ready status";

/// The values that the sensor may report, as errors describe them.
pub const DATA_STATUS_EXPECTED: &'static str = "0 or 1";

/// Information whether a measurement is ready or not for readout.
#[derive(Clone, Copy, Debug, PartialEq)]
pub enum DataStatus {
    /// Data is available.
    Ready,
    /// No data is available.
    NotReady,
}

impl DataStatus {
    /// The error that reports a status byte other than 0 and 1.
    pub open spec fn unexpected(actual: u8) -> DataError {
        DataError::UnexpectedValueReceived {
            parameter: DATA_STATUS_VALUE,
            expected: DATA_STATUS_EXPECTED,
            actual: actual as u16,
        }
    }

    /// The status that a response holds. The low data byte decides: 1 says
    /// that a measurement is ready, 0 that none is, and any other value is
    /// reported as unexpected.
    pub open spec fn decoded(data: Seq<u8>) -> Result<Self, DataError> {
        match checked(data, 3) {
            Ok(()) => if data[1] == 0 {
                Ok(DataStatus::NotReady)
            } else if data[1] == 1 {
                Ok(DataStatus::Ready)
            } else {
                Err(Self::unexpected(data[1]))
            },
            Err(error) => Err(error),
        }
    }
}

impl TryFromSpecImpl<&[u8]> for DataStatus {
    open spec fn obeys_try_from_spec() -> bool {
        true
    }

    open spec fn try_from_spec(data: &[u8]) -> Result<Self, DataError> {
        Self::decoded(data@)
    }
}

impl TryFrom<&[u8]> for DataStatus {
    type Error = DataError;

    /// Converts buffered data to an [DataStatus] value.
    ///
    /// # Errors
    ///
    /// - [ReceivedBufferWrongSize](crate::error::DataError::ReceivedBufferWrongSize) if the `data` buffer is not big enough for the data
    ///   that should have been received.
    /// - [CrcFailed](crate::error::DataError::CrcFailed) if the CRC of the received data does not match.
    /// - [UnexpectedValueReceived](crate::error::DataError::UnexpectedValueReceived) if the received value is not `0` or `1`.
    fn try_from(data: &[u8]) -> (result: Result<Self, DataError>)
        ensures
            result == Self::decoded(data@),
    {
        check_deserialization(data, 3)?;
        match data[1] {
            0 => Ok(Self::NotReady),
            1 => Ok(Self::Ready),
            val => Err(
                DataError::UnexpectedValueReceived {
                    parameter: DATA_STATUS_VALUE,
                    expected: DATA_STATUS_EXPECTED,
                    actual: val as u16,
                },
            ),
        }
    }
}

} // verus!
