//! SCD30 I2C Commands.
use crate::endian::{to_be_bytes, u16_be_bytes};
use vstd::prelude::*;

verus! {

/// I2C Commands for the SCD30 according to its [interface
/// description](https://sensirion.com/media/documents/D7CEEF4A/6165372F/Sensirion_CO2_Sensors_SCD30_Interface_Description.pdf)
#[derive(Clone, Copy)]
pub enum Command {
    /// Enable continuous measurements with an ambient pressure compensation. The ambient pressure
    /// compensation is sent as an argument after the command. Setting it to 0 uses the default
    /// value of 1013.25 mBar. Accepted value range: 0 or [700...1400] in mBar.
    TriggerContinuousMeasurement,
    /// Stop continuous measurements.
    StopContinuousMeasurement,
    /// Sets the measurement interval in continuous mode. The interval is sent as an argument
    /// after the command. The initial value is 2 s. Accepted value range: [2...1800] in s. If no
    /// argument is given the value is read back.
    SetMeasurementInterval,
    /// Queries whether a measurement can be read from the sensor's buffer. The answer is `1` if
    /// a measurement is available, `0` otherwise.
    GetDataReady,
    /// If a measurement is available reads out the measurement. The measurement contains the CO2
    /// concentration in ppm, the temperature in °C and the relative humidity in %.
    ReadMeasurement,
    /// (De-)Activates continuous, automatic self calibration (ASC). The setting is sent as an
    /// argument after the command. Sending a `1` activates ASC, sending a `0` deactivates ASC. See
    /// the interface description for the self-calibration procedure.
    ActivateAutomaticSelfCalibration,
    /// Set or get the forced re-calibration value (FRC). After re-powering this returns the standard
    /// value of 400 ppm. Sending an argument after the command sets the FRC to the sent value.
    /// Accepted value range: [400...2000] ppm. If no argument is given the value is read back.
    ForcedRecalibrationValue,
    /// Set temperature offset caused by self-heating. The offset is sent as an argument after the
    /// command. If no argument is given the value is read back.
    SetTemperatureOffset,
    /// Set operating height over sea level. The height is sent as an argument after the command.
    /// Accepted value range: [0..UINT16::MAX] in m above sea level. If no argument is given the
    /// value is read back.
    SetAltitudeCompensation,
    /// Queries the firmware version of the sensor. The responses is the major.minor version.
    ReadFirmwareVersion,
    /// Reset the device, similar to a power-off reset, by restarting the sensor controller.
    SoftReset,
}

impl Command {
    /// The 16-bit code by which the sensor knows the command.
    pub open spec fn spec_opcode(&self) -> u16 {
        match self {
            Command::TriggerContinuousMeasurement => 0x0010,
            Command::StopContinuousMeasurement => 0x0104,
            Command::SetMeasurementInterval => 0x4600,
            Command::GetDataReady => 0x0202,
            Command::ReadMeasurement => 0x0300,
            Command::ActivateAutomaticSelfCalibration => 0x5306,
            Command::ForcedRecalibrationValue => 0x5204,
            Command::SetTemperatureOffset => 0x5403,
            Command::SetAltitudeCompensation => 0x5102,
            Command::ReadFirmwareVersion => 0xD100,
            Command::SoftReset => 0xD304,
        }
    }

    /// The 16-bit code by which the sensor knows the command.
    #[verifier::when_used_as_spec(spec_opcode)]
    pub fn opcode(&self) -> (code: u16)
        ensures
            code == self.spec_opcode(),
    {
        match self {
            Command::TriggerContinuousMeasurement => 0x0010,
            Command::StopContinuousMeasurement => 0x0104,
            Command::SetMeasurementInterval => 0x4600,
            Command::GetDataReady => 0x0202,
            Command::ReadMeasurement => 0x0300,
            Command::ActivateAutomaticSelfCalibration => 0x5306,
            Command::ForcedRecalibrationValue => 0x5204,
            Command::SetTemperatureOffset => 0x5403,
            Command::SetAltitudeCompensation => 0x5102,
            Command::ReadFirmwareVersion => 0xD100,
            Command::SoftReset => 0xD304,
        }
    }

    /// Returns a big endian byte representation of the command.
    pub fn to_be_bytes(&self) -> (bytes: [u8; 2])
        ensures
            bytes@ == u16_be_bytes(self.opcode()),
    {
        to_be_bytes(self.opcode())
    }
}

/// No two commands share a code: the code alone tells which command a frame
/// carries.
pub proof fn lemma_opcodes_distinct(a: Command, b: Command)
    requires
        a.opcode() == b.opcode(),
    ensures
        a == b,
{
}

} // verus!
