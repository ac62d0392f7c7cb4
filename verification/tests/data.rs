use scd30_interface::data::{
    AltitudeCompensation, AmbientPressure, AmbientPressureCompensation, AutomaticSelfCalibration,
    DataStatus, FirmwareVersion, ForcedRecalibrationValue, Measurement, MeasurementInterval,
    TemperatureOffset,
};
use scd30_interface::error::DataError;

// Altitude compensation

#[test]
fn altitude_compensation_deserialize_specification_sample_works() {
    let data = [0x03, 0xE8, 0xD4];
    let altitude = AltitudeCompensation::try_from(&data[..]).unwrap();
    assert_eq!(altitude.value(), 1000);
}

#[test]
fn serialize_specification_sample_works() {
    let altitude = AltitudeCompensation::from(1000);
    assert_eq!(altitude.to_be_bytes(), [0x03, 0xE8]);
}

#[test]
fn creating_from_u16_works() {
    let altitude = AltitudeCompensation::from(1000);
    assert_eq!(altitude.value(), 1000);
    assert_eq!(altitude, AltitudeCompensation::from(1000));
}

// Ambient pressure

#[test]
fn ambient_pressure_serialize_sample_works() {
    let pressure = AmbientPressure::try_from(700).unwrap();
    assert_eq!(pressure.to_be_bytes(), [0x02, 0xBC]);
}

#[test]
fn ambient_pressure_create_allowed_value_from_u16_works() {
    let values = [700, 1000, 1400];
    for value in values {
        assert_eq!(AmbientPressure::try_from(value).unwrap().value(), value);
    }
}

#[test]
fn ambient_pressure_create_from_u16_non_null_out_of_spec_value_errors() {
    let values = [500, 2000];
    for value in values {
        assert_eq!(
            AmbientPressure::try_from(value).unwrap_err(),
            DataError::ValueOutOfRange {
                parameter: "Ambient pressure compensation",
                min: 700,
                max: 1400,
                unit: "mBar"
            }
        );
    }
}

#[test]
fn create_from_u16_null_value_errors() {
    assert_eq!(
        AmbientPressure::try_from(0).unwrap_err(),
        DataError::UseDefaultPressure
    );
}

#[test]
fn ambient_pressure_boundaries() {
    assert!(matches!(
        AmbientPressure::try_from(699),
        Err(DataError::ValueOutOfRange { .. })
    ));
    assert!(matches!(
        AmbientPressure::try_from(1401),
        Err(DataError::ValueOutOfRange { .. })
    ));
    assert_eq!(AmbientPressure::try_from(700).unwrap().value(), 700);
    assert_eq!(AmbientPressure::try_from(1400).unwrap().value(), 1400);
    assert_eq!(
        AmbientPressure::try_from(0).unwrap_err(),
        DataError::UseDefaultPressure
    );
    assert!(matches!(
        AmbientPressure::try_from(1),
        Err(DataError::ValueOutOfRange { .. })
    ));
    assert!(matches!(
        AmbientPressure::try_from(u16::MAX),
        Err(DataError::ValueOutOfRange { .. })
    ));
}

#[test]
fn ambient_pressure_compensation_serializes() {
    assert_eq!(
        AmbientPressureCompensation::DefaultPressure.to_be_bytes(),
        [0x00, 0x00]
    );
    let pressure = AmbientPressure::try_from(800).unwrap();
    assert_eq!(
        AmbientPressureCompensation::CompensationPressure(pressure).to_be_bytes(),
        [0x03, 0x20]
    );
}

// Automatic self-calibration

#[test]
fn serialize_inactive_works() {
    let asc = AutomaticSelfCalibration::Inactive;
    assert_eq!(asc.to_be_bytes(), [0x00, 0x00]);
}

#[test]
fn serialize_active_works() {
    let asc = AutomaticSelfCalibration::Active;
    assert_eq!(asc.to_be_bytes(), [0x00, 0x01]);
}

#[test]
fn deserialize_inactive_spec_sample_works() {
    let data = [0x00, 0x00, 0x81];
    assert_eq!(
        AutomaticSelfCalibration::try_from(&data[..]).unwrap(),
        AutomaticSelfCalibration::Inactive
    );
}

#[test]
fn deserialize_active_works() {
    let data = [0x00, 0x01, 0xB0];
    assert_eq!(
        AutomaticSelfCalibration::try_from(&data[..]).unwrap(),
        AutomaticSelfCalibration::Active
    );
}

#[test]
fn automatic_self_calibration_deserialize_out_of_specification_value_errors() {
    let data = [0x00, 0x02, 0xE3];
    assert_eq!(
        AutomaticSelfCalibration::try_from(&data[..]).unwrap_err(),
        DataError::UnexpectedValueReceived {
            parameter: "Automatic self-calibration",
            expected: "0 or 1",
            actual: 2
        }
    );
}

// Data status

#[test]
fn deserialize_not_ready_spec_sample_works() {
    let data = [0x00, 0x00, 0x81];
    assert_eq!(
        DataStatus::try_from(&data[..]).unwrap(),
        DataStatus::NotReady
    );
}

#[test]
fn deserialize_ready_works() {
    let data = [0x00, 0x01, 0xB0];
    assert_eq!(DataStatus::try_from(&data[..]).unwrap(), DataStatus::Ready);
}

#[test]
fn data_status_deserialize_out_of_specification_value_errors() {
    let data = [0x00, 0x02, 0xE3];
    assert_eq!(
        DataStatus::try_from(&data[..]).unwrap_err(),
        DataError::UnexpectedValueReceived {
            parameter: "Data ready status",
            expected: "0 or 1",
            actual: 2
        }
    );
}

// Firmware version

#[test]
fn firmware_version_deserialize_specification_sample_works() {
    let data = [0x03, 0x42, 0xF3];
    let version = FirmwareVersion::try_from(&data[..]).unwrap();
    assert_eq!(version.major, 3);
    assert_eq!(version.minor, 66);
}

// Forced recalibration value

#[test]
fn forced_recalibration_value_deserialize_sample_works() {
    let data = [0x01, 0xC2, 0x50];
    let frc = ForcedRecalibrationValue::try_from(&data[..]).unwrap();
    assert_eq!(frc, ForcedRecalibrationValue::try_from(450).unwrap());
    assert_eq!(frc.value(), 450);
}

#[test]
fn forced_recalibration_value_serialize_sample_works() {
    let frc = ForcedRecalibrationValue::try_from(450).unwrap();
    assert_eq!(frc.to_be_bytes(), [0x01, 0xC2]);
}

#[test]
fn forced_recalibration_value_create_allowed_value_from_u16_works() {
    let values = [400, 1200, 2000];
    for value in values {
        assert_eq!(
            ForcedRecalibrationValue::try_from(value).unwrap().value(),
            value
        );
    }
}

#[test]
fn forced_recalibration_value_create_from_u16_non_null_out_of_spec_value_errors() {
    let values = [300, 2100];
    for value in values {
        assert_eq!(
            ForcedRecalibrationValue::try_from(value).unwrap_err(),
            DataError::ValueOutOfRange {
                parameter: "Forced recalibration value",
                min: 400,
                max: 2000,
                unit: "ppm"
            }
        );
    }
}

#[test]
fn forced_recalibration_value_boundaries() {
    assert!(ForcedRecalibrationValue::try_from(399).is_err());
    assert!(ForcedRecalibrationValue::try_from(400).is_ok());
    assert!(ForcedRecalibrationValue::try_from(2000).is_ok());
    assert!(ForcedRecalibrationValue::try_from(2001).is_err());
}

// Measurement

#[test]
fn sample_measurement_deserializes_properly() {
    let data: [u8; 18] = [
        0x43, 0xDB, 0xCB, 0x8C, 0x2E, 0x8F, 0x41, 0xD9, 0x70, 0xE7, 0xFF, 0xF5, 0x42, 0x43, 0xBF,
        0x3A, 0x1B, 0x74,
    ];
    let result = Measurement::try_from(&data[..]).unwrap();
    assert_eq!(f32::from_bits(result.co2_concentration), 439.09515);
    assert_eq!(f32::from_bits(result.temperature), 27.23828);
    assert_eq!(f32::from_bits(result.humidity), 48.806744);
}

#[test]
fn sample_measurement_bit_patterns() {
    let data: [u8; 18] = [
        0x43, 0xDB, 0xCB, 0x8C, 0x2E, 0x8F, 0x41, 0xD9, 0x70, 0xE7, 0xFF, 0xF5, 0x42, 0x43, 0xBF,
        0x3A, 0x1B, 0x74,
    ];
    let result = Measurement::try_from(&data[..]).unwrap();
    assert_eq!(result.co2_concentration, 0x43DB_8C2E);
    assert_eq!(result.temperature, 0x41D9_E7FF);
    assert_eq!(result.humidity, 0x4243_3A1B);
}

#[test]
fn measurement_of_wrong_length_errors() {
    let data = [0x43, 0xDB, 0xCB];
    assert_eq!(
        Measurement::try_from(&data[..]).unwrap_err(),
        DataError::ReceivedBufferWrongSize
    );
}

#[test]
fn measurement_with_altered_byte_errors() {
    let good: [u8; 18] = [
        0x43, 0xDB, 0xCB, 0x8C, 0x2E, 0x8F, 0x41, 0xD9, 0x70, 0xE7, 0xFF, 0xF5, 0x42, 0x43, 0xBF,
        0x3A, 0x1B, 0x74,
    ];
    for at in 0..18 {
        let mut altered = good;
        altered[at] = altered[at].wrapping_add(1);
        assert_eq!(
            Measurement::try_from(&altered[..]).unwrap_err(),
            DataError::CrcFailed
        );
    }
}

// Measurement interval

#[test]
fn measurement_interval_deserialize_sample_works() {
    let data = [0x00, 0x02, 0xE3];
    let interval = MeasurementInterval::try_from(&data[..]).unwrap();
    assert_eq!(interval, MeasurementInterval::try_from(2).unwrap());
    assert_eq!(interval.value(), 2);
}

#[test]
fn measurement_interval_serialize_sample_works() {
    let interval = MeasurementInterval::try_from(2).unwrap();
    assert_eq!(interval.to_be_bytes(), [0x00, 0x02]);
}

#[test]
fn measurement_interval_create_allowed_value_from_u16_works() {
    let values = [2, 901, 1800];
    for value in values {
        assert_eq!(MeasurementInterval::try_from(value).unwrap().value(), value);
    }
}

#[test]
fn measurement_interval_create_from_u16_non_null_out_of_spec_value_errors() {
    let values = [1, 2000];
    for value in values {
        assert_eq!(
            MeasurementInterval::try_from(value).unwrap_err(),
            DataError::ValueOutOfRange {
                parameter: "Measurement interval",
                min: 2,
                max: 1800,
                unit: "s"
            }
        );
    }
}

#[test]
fn measurement_interval_boundaries() {
    assert!(MeasurementInterval::try_from(0).is_err());
    assert!(MeasurementInterval::try_from(1).is_err());
    assert!(MeasurementInterval::try_from(2).is_ok());
    assert!(MeasurementInterval::try_from(1800).is_ok());
    assert!(MeasurementInterval::try_from(1801).is_err());
}

#[test]
fn received_values_are_not_held_to_the_range() {
    // 0 s is no interval that can be sent, but it is one that can be received.
    let data = [0x00, 0x00, 0x81];
    assert_eq!(MeasurementInterval::try_from(&data[..]).unwrap().value(), 0);
    assert_eq!(
        ForcedRecalibrationValue::try_from(&data[..]).unwrap().value(),
        0
    );
}

// Temperature offset

#[test]
fn temperature_offset_deserialize_sample_works() {
    let data = [0x01, 0xF4, 0x33];
    let offset = TemperatureOffset::try_from(&data[..]).unwrap();
    assert_eq!(offset, TemperatureOffset::from_hundredths(500));
}

#[test]
fn temperature_offset_serialize_sample_works() {
    let offset = TemperatureOffset::from_hundredths(500);
    assert_eq!(offset.to_be_bytes(), [0x01, 0xF4]);
}

#[test]
fn temperature_offset_holds_hundredths() {
    for value in [0, 10, 1000, u16::MAX] {
        assert_eq!(TemperatureOffset::from_hundredths(value).hundredths(), value);
    }
}

#[test]
fn temperature_offset_out_of_range_error() {
    assert_eq!(
        TemperatureOffset::out_of_range(),
        DataError::ValueOutOfRange {
            parameter: "Temperature offset",
            min: 0,
            max: u16::MAX,
            unit: "°C"
        }
    );
}

// Round trips

fn response_of(bytes: [u8; 2]) -> [u8; 3] {
    [bytes[0], bytes[1], scd30_interface::util::compute_crc8(&bytes)]
}

#[test]
fn every_altitude_compensation_round_trips() {
    for value in 0..=u16::MAX {
        let altitude = AltitudeCompensation::from(value);
        let response = response_of(altitude.to_be_bytes());
        assert_eq!(
            AltitudeCompensation::try_from(&response[..]).unwrap(),
            altitude
        );
    }
}

#[test]
fn every_valid_value_round_trips() {
    for value in 400..=2000 {
        let frc = ForcedRecalibrationValue::try_from(value).unwrap();
        let response = response_of(frc.to_be_bytes());
        assert_eq!(
            ForcedRecalibrationValue::try_from(&response[..]).unwrap(),
            frc
        );
    }
    for value in 2..=1800 {
        let interval = MeasurementInterval::try_from(value).unwrap();
        let response = response_of(interval.to_be_bytes());
        assert_eq!(
            MeasurementInterval::try_from(&response[..]).unwrap(),
            interval
        );
    }
    for value in (0..=u16::MAX).step_by(7) {
        let offset = TemperatureOffset::from_hundredths(value);
        let response = response_of(offset.to_be_bytes());
        assert_eq!(TemperatureOffset::try_from(&response[..]).unwrap(), offset);
    }
    for setting in [
        AutomaticSelfCalibration::Active,
        AutomaticSelfCalibration::Inactive,
    ] {
        let response = response_of(setting.to_be_bytes());
        assert_eq!(
            AutomaticSelfCalibration::try_from(&response[..]).unwrap(),
            setting
        );
    }
}

#[test]
fn word_of_wrong_length_errors_for_every_type() {
    let short = [0x00, 0x02];
    let long = [0x00, 0x02, 0xE3, 0x00];
    for data in [&short[..], &long[..]] {
        assert_eq!(
            AltitudeCompensation::try_from(data).unwrap_err(),
            DataError::ReceivedBufferWrongSize
        );
        assert_eq!(
            AutomaticSelfCalibration::try_from(data).unwrap_err(),
            DataError::ReceivedBufferWrongSize
        );
        assert_eq!(
            DataStatus::try_from(data).unwrap_err(),
            DataError::ReceivedBufferWrongSize
        );
        assert_eq!(
            FirmwareVersion::try_from(data).unwrap_err(),
            DataError::ReceivedBufferWrongSize
        );
        assert_eq!(
            ForcedRecalibrationValue::try_from(data).unwrap_err(),
            DataError::ReceivedBufferWrongSize
        );
        assert_eq!(
            MeasurementInterval::try_from(data).unwrap_err(),
            DataError::ReceivedBufferWrongSize
        );
        assert_eq!(
            TemperatureOffset::try_from(data).unwrap_err(),
            DataError::ReceivedBufferWrongSize
        );
    }
}

#[test]
fn word_with_wrong_checksum_errors_for_every_type() {
    let data = [0x00, 0x01, 0xB1];
    assert_eq!(
        AltitudeCompensation::try_from(&data[..]).unwrap_err(),
        DataError::CrcFailed
    );
    assert_eq!(
        AutomaticSelfCalibration::try_from(&data[..]).unwrap_err(),
        DataError::CrcFailed
    );
    assert_eq!(
        DataStatus::try_from(&data[..]).unwrap_err(),
        DataError::CrcFailed
    );
    assert_eq!(
        FirmwareVersion::try_from(&data[..]).unwrap_err(),
        DataError::CrcFailed
    );
    assert_eq!(
        ForcedRecalibrationValue::try_from(&data[..]).unwrap_err(),
        DataError::CrcFailed
    );
    assert_eq!(
        MeasurementInterval::try_from(&data[..]).unwrap_err(),
        DataError::CrcFailed
    );
    assert_eq!(
        TemperatureOffset::try_from(&data[..]).unwrap_err(),
        DataError::CrcFailed
    );
}

#[test]
fn discrete_values_are_read_from_the_low_byte() {
    let active = response_of([0x01, 0x01]);
    assert_eq!(
        AutomaticSelfCalibration::try_from(&active[..]).unwrap(),
        AutomaticSelfCalibration::Active
    );
    assert_eq!(DataStatus::try_from(&active[..]).unwrap(), DataStatus::Ready);
    let unexpected = response_of([0x00, 0xFF]);
    assert_eq!(
        AutomaticSelfCalibration::try_from(&unexpected[..]).unwrap_err(),
        DataError::UnexpectedValueReceived {
            parameter: "Automatic self-calibration",
            expected: "0 or 1",
            actual: 255
        }
    );
    assert_eq!(
        DataStatus::try_from(&unexpected[..]).unwrap_err(),
        DataError::UnexpectedValueReceived {
            parameter: "Data ready status",
            expected: "0 or 1",
            actual: 255
        }
    );
}

#[test]
fn any_firmware_version_is_accepted() {
    for (major, minor) in [(0, 0), (3, 66), (255, 255)] {
        let response = response_of([major, minor]);
        let version = FirmwareVersion::try_from(&response[..]).unwrap();
        assert_eq!(version.major, major);
        assert_eq!(version.minor, minor);
    }
}
