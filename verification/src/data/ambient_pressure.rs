use crate::endian::{to_be_bytes, u16_be_bytes};
use crate::error::{viewed, DataError};
use vstd::prelude::*;
use vstd::std_specs::convert::TryFromSpecImpl;

verus! {

/// Lowest ambient pressure that the sensor compensates for, in mBar.
pub const MIN_AMBIENT_PRESSURE: u16 = 700;

/// Highest ambient pressure that the sensor compensates for, in mBar.
pub const MAX_AMBIENT_PRESSURE: u16 = 1400;

/// Name of the parameter in errors.
pub const AMBIENT_PRESSURE_VAL: &'static str = "Ambient pressure compensation";

/// Unit of the parameter in errors.
pub const PRESSURE_UNIT: &'static str = "mBar";

/// A runtime checked representation of the ambient pressure compensation value used as an argument
/// for the ambient pressure compensation during continuous measurements. Accepted value range:
/// [700...1400] mBar.
#[derive(Debug, PartialEq)]
pub struct AmbientPressure(u16);

impl View for AmbientPressure {
    type V = u16;

    /// The pressure in mBar.
    closed spec fn view(&self) -> u16 {
        self.0
    }
}

impl AmbientPressure {
    /// The error that reports a pressure outside the accepted range.
    pub open spec fn out_of_range() -> DataError {
        DataError::ValueOutOfRange {
            parameter: AMBIENT_PRESSURE_VAL,
            min: MIN_AMBIENT_PRESSURE,
            max: MAX_AMBIENT_PRESSURE,
            unit: PRESSURE_UNIT,
        }
    }

    /// The verdict on a pressure given in mBar: 0 is turned away with a pointer
    /// to the default pressure, any other value outside the accepted range
    /// as out of range.
    pub open spec fn validated(pressure: u16) -> Result<u16, DataError> {
        if pressure == 0 {
            Err(DataError::UseDefaultPressure)
        } else if MIN_AMBIENT_PRESSURE <= pressure <= MAX_AMBIENT_PRESSURE {
            Ok(pressure)
        } else {
            Err(Self::out_of_range())
        }
    }

    /// Returns a big endian byte representation of the ambient pressure value.
    pub fn to_be_bytes(&self) -> (bytes: [u8; 2])
        ensures
            bytes@ == u16_be_bytes(self@),
    {
        to_be_bytes(self.0)
    }

    /// The pressure in mBar.
    pub fn value(&self) -> (pressure: u16)
        ensures
            pressure == self@,
    {
        self.0
    }
}

impl TryFromSpecImpl<u16> for AmbientPressure {
    open spec fn obeys_try_from_spec() -> bool {
        true
    }

    closed spec fn try_from_spec(pressure: u16) -> Result<Self, DataError> {
        match Self::validated(pressure) {
            Ok(accepted) => Ok(AmbientPressure(accepted)),
            Err(error) => Err(error),
        }
    }
}

impl TryFrom<u16> for AmbientPressure {
    type Error = DataError;

    /// Converts a u16 value to an [AmbientPressure]. The value must be between 700 and 1400 in mBar.
    ///
    /// # Errors
    ///
    /// - [ValueOutOfRange](crate::error::DataError::ValueOutOfRange) if `pressure` is lower than 700 or higher than
    ///   1400 mBar.
    /// - [UseDefaultPressure](crate::error::DataError::UseDefaultPressure) if `pressure` is 0.
    fn try_from(pressure: u16) -> (result: Result<Self, DataError>)
        ensures
            viewed(result) == Self::validated(pressure),
    {
        if pressure == 0 {
            Err(DataError::UseDefaultPressure)
        } else if pressure < MIN_AMBIENT_PRESSURE || pressure > MAX_AMBIENT_PRESSURE {
            Err(
                DataError::ValueOutOfRange {
                    parameter: AMBIENT_PRESSURE_VAL,
                    min: MIN_AMBIENT_PRESSURE,
                    max: MAX_AMBIENT_PRESSURE,
                    unit: PRESSURE_UNIT,
                },
            )
        } else {
            Ok(Self(pressure))
        }
    }
}

/// Arguments for setting the ambient pressure compensation value.
#[derive(Debug)]
pub enum AmbientPressureCompensation {
    /// Configures ambient pressure compensation to the default value of 1013.25 mBar
    DefaultPressure,
    /// Configures ambient pressure compensation to a custom value.
    CompensationPressure(AmbientPressure),
}

impl View for AmbientPressureCompensation {
    type V = u16;

    /// The argument that stands for the setting: 0 selects the default
    /// pressure, any other value is the pressure in mBar.
    open spec fn view(&self) -> u16 {
        match self {
            AmbientPressureCompensation::DefaultPressure => 0,
            AmbientPressureCompensation::CompensationPressure(ambient_pressure) => ambient_pressure@,
        }
    }
}

impl AmbientPressureCompensation {
    /// Returns a byte representation of the ambient pressure compensation value.
    pub fn to_be_bytes(&self) -> (bytes: [u8; 2])
        ensures
            bytes@ == u16_be_bytes(self@),
    {
        match self {
            AmbientPressureCompensation::DefaultPressure => {
                let bytes: [u8; 2] = [0x00, 0x00];
                assert(bytes@ =~= u16_be_bytes(0));
                bytes
            },
            AmbientPressureCompensation::CompensationPressure(ambient_pressure) => {
                ambient_pressure.to_be_bytes()
            },
        }
    }
}

} // verus!
