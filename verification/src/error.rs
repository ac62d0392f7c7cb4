//! Errors reported by this library.
use vstd::prelude::*;
use vstd::std_specs::convert::FromSpecImpl;

verus! {

/// Errors of a whole exchange with the sensor.
#[derive(Debug, PartialEq)]
pub enum Scd30Error<I2cErr> {
    /// A value could not be built or a response could not be decoded.
    DataError(DataError),
    /// The bus reported an error, handed on as it came.
    I2cError(I2cErr),
    /// The argument meant for the sensor is not exactly 16 bits wide.
    SentDataToBig,
}

/// Errors of building and decoding values.
#[derive(Debug, PartialEq)]
pub enum DataError {
    /// A value meant for the sensor lies outside the range that the sensor
    /// accepts for it.
    ValueOutOfRange {
        /// Name of the parameter
        parameter: &'static str,
        /// Lower limit of the value
        min: u16,
        /// Upper limit of the value
        max: u16,
        /// Unit of the value
        unit: &'static str,
    },
    /// The ambient pressure compensation was given as 0. The default pressure
    /// is selected with
    /// [DefaultPressure](crate::data::AmbientPressureCompensation::DefaultPressure).
    UseDefaultPressure,
    /// A word of a response does not carry the checksum of its data.
    CrcFailed,
    /// A response does not have the length that was asked for.
    ReceivedBufferWrongSize,
    /// A field with a fixed set of values held another value.
    UnexpectedValueReceived {
        /// Name of the parameter
        parameter: &'static str,
        /// Description of the expected value range
        expected: &'static str,
        /// Actual value received
        actual: u16,
    },
}

impl<I2cErr> FromSpecImpl<DataError> for Scd30Error<I2cErr> {
    open spec fn obeys_from_spec() -> bool {
        true
    }

    open spec fn from_spec(error: DataError) -> Self {
        Scd30Error::DataError(error)
    }
}

impl<I2cErr> From<DataError> for Scd30Error<I2cErr> {
    /// An error of the data is an error of the exchange in which it came up.
    fn from(error: DataError) -> (wrapped: Self)
        ensures
            wrapped == Scd30Error::<I2cErr>::DataError(error),
    {
        Scd30Error::DataError(error)
    }
}

/// What `result` holds when the value inside is taken by its view: the model
/// over which the contracts of the fallible constructors are stated.
pub open spec fn viewed<T: View>(result: Result<T, DataError>) -> Result<T::V, DataError> {
    match result {
        Ok(value) => Ok(value@),
        Err(error) => Err(error),
    }
}

} // verus!
