//! Data send to or received from the SCD30 sensor.
mod altitude_compensation;
mod ambient_pressure;
mod automatic_self_calibration;
mod data_status;
mod firmware_version;
mod forced_recalibration_value;
mod measurement;
mod measurement_interval;
mod temperature_offset;

pub use altitude_compensation::AltitudeCompensation;
pub use ambient_pressure::{AmbientPressure, AmbientPressureCompensation};
pub use automatic_self_calibration::AutomaticSelfCalibration;
pub use data_status::DataStatus;
pub use firmware_version::FirmwareVersion;
pub use forced_recalibration_value::ForcedRecalibrationValue;
pub use measurement::Measurement;
pub use measurement_interval::MeasurementInterval;
pub use temperature_offset::TemperatureOffset;
