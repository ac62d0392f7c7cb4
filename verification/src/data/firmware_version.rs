use crate::error::DataError;
use crate::util::{check_deserialization, checked};
use vstd::prelude::*;
use vstd::std_specs::convert::TryFromSpecImpl;

verus! {

/// The firmware version of the sensor.
#[derive(Clone, Copy, Debug)]
pub struct FirmwareVersion {
    /// Major version.
    pub major: u8,
    /// Minor version.
    pub minor: u8,
}

impl FirmwareVersion {
    /// The version that a response holds: its first data byte is the major
    /// and its second the minor version, whatever their values.
    pub open spec fn decoded(data: Seq<u8>) -> Result<Self, DataError> {
        match checked(data, 3) {
            Ok(()) => Ok(FirmwareVersion { major: data[0], minor: data[1] }),
            Err(error) => Err(error),
        }
    }
}

impl TryFromSpecImpl<&[u8]> for FirmwareVersion {
    open spec fn obeys_try_from_spec() -> bool {
        true
    }

    open spec fn try_from_spec(data: &[u8]) -> Result<Self, DataError> {
        Self::decoded(data@)
    }
}

impl TryFrom<&[u8]> for FirmwareVersion {
    type Error = DataError;

    /// Converts buffered data to a [FirmwareVersion] value.
    ///
    /// # Errors
    ///
    /// - [ReceivedBufferWrongSize](crate::error::DataError::ReceivedBufferWrongSize) if the `data` buffer is not big enough for the data
    ///   that should have been received.
    /// - [CrcFailed](crate::error::DataError::CrcFailed) if the CRC of the received data does not match.
    fn try_from(data: &[u8]) -> (result: Result<Self, DataError>)
        ensures
            result == Self::decoded(data@),
    {
        check_deserialization(data, 3)?;
        Ok(Self { major: data[0], minor: data[1] })
    }
}

} // verus!
