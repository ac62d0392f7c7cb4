//! The sensor's interface: which bytes an operation writes, how many bytes it
//! reads back, and what the bytes read mean.
//!
//! Nothing here touches the bus. An operation is a [Request]; it is carried
//! out in steps, each of which names what the owner of the bus does next and
//! takes the outcome of that back in.
use crate::command::Command;
use crate::data::{
    AltitudeCompensation, AmbientPressureCompensation, AutomaticSelfCalibration, DataStatus,
    FirmwareVersion, ForcedRecalibrationValue, Measurement, MeasurementInterval,
    TemperatureOffset,
};
use crate::endian::u16_be_bytes;
use crate::error::{DataError, Scd30Error};
use crate::frame::{argument_frame, command_frame, Frame};
use crate::util::{checked_word, lemma_one_changed_byte_fails};
use vstd::prelude::*;

verus! {

/// 7-bit address of the sensor on the bus.
pub const ADDRESS: u8 = 0x61;

/// Direction bit of a write.
pub const WRITE_FLAG: u8 = 0x00;

/// Direction bit of a read.
pub const READ_FLAG: u8 = 0x01;

/// Length of a response that holds a single word.
pub const WORD_RESPONSE_LEN: usize = 3;

/// Length of a response that holds a measurement.
pub const MEASUREMENT_RESPONSE_LEN: usize = 18;

/// Interface for the [SCD30 CO2 sensor by Sensirion](https://sensirion.com/products/catalog/SCD30).
///
/// It owns the bus for as long as it lives and keeps nothing else from one
/// operation to the next.
pub struct Scd30<I2C> {
    i2c: I2C,
}

impl<I2C> Scd30<I2C> {
    /// The bus that the interface owns.
    pub closed spec fn bus(&self) -> I2C {
        self.i2c
    }

    /// Create a new SCD30 interface.
    pub fn new(i2c: I2C) -> (sensor: Self)
        ensures
            sensor.bus() == i2c,
    {
        Self { i2c }
    }

    /// Lends the bus out for one write or one read.
    pub fn i2c(&mut self) -> (i2c: &mut I2C)
        ensures
            *i2c == old(self).bus(),
            final(self).bus() == *final(i2c),
    {
        &mut self.i2c
    }

    /// Consumes the sensor and returns the contained I2C peripheral.
    pub fn shutdown(self) -> (i2c: I2C)
        ensures
            i2c == self.bus(),
    {
        self.i2c
    }
}

/// An operation of the sensor together with the value that it sends.
#[derive(Debug)]
pub enum Request {
    /// Start continuous measurements, with the ambient pressure to compensate
    /// for where one is given.
    TriggerContinuousMeasurements(Option<AmbientPressureCompensation>),
    /// Stop continuous measurements.
    StopContinuousMeasurements,
    /// Configure the measurement interval.
    SetMeasurementInterval(MeasurementInterval),
    /// Read out the measurement interval.
    GetMeasurementInterval,
    /// Ask whether a measurement is ready for readout.
    IsDataReady,
    /// Read out a measurement.
    ReadMeasurement,
    /// Activate or deactivate the automatic self-calibration.
    SetAutomaticSelfCalibration(AutomaticSelfCalibration),
    /// Read out the state of the automatic self-calibration.
    GetAutomaticSelfCalibration,
    /// Configure the forced re-calibration value.
    SetForcedRecalibration(ForcedRecalibrationValue),
    /// Read out the forced re-calibration value.
    GetForcedRecalibration,
    /// Configure the temperature offset.
    SetTemperatureOffset(TemperatureOffset),
    /// Read out the temperature offset.
    GetTemperatureOffset,
    /// Configure the altitude compensation.
    SetAltitudeCompensation(AltitudeCompensation),
    /// Read out the altitude compensation.
    GetAltitudeCompensation,
    /// Read out the version of the firmware.
    ReadFirmwareVersion,
    /// Reset the sensor.
    SoftReset,
}

impl Request {
    /// The command that the operation sends.
    pub open spec fn spec_command(&self) -> Command {
        match self {
            Request::TriggerContinuousMeasurements(_) => Command::TriggerContinuousMeasurement,
            Request::StopContinuousMeasurements => Command::StopContinuousMeasurement,
            Request::SetMeasurementInterval(_) => Command::SetMeasurementInterval,
            Request::GetMeasurementInterval => Command::SetMeasurementInterval,
            Request::IsDataReady => Command::GetDataReady,
            Request::ReadMeasurement => Command::ReadMeasurement,
            Request::SetAutomaticSelfCalibration(_) => Command::ActivateAutomaticSelfCalibration,
            Request::GetAutomaticSelfCalibration => Command::ActivateAutomaticSelfCalibration,
            Request::SetForcedRecalibration(_) => Command::ForcedRecalibrationValue,
            Request::GetForcedRecalibration => Command::ForcedRecalibrationValue,
            Request::SetTemperatureOffset(_) => Command::SetTemperatureOffset,
            Request::GetTemperatureOffset => Command::SetTemperatureOffset,
            Request::SetAltitudeCompensation(_) => Command::SetAltitudeCompensation,
            Request::GetAltitudeCompensation => Command::SetAltitudeCompensation,
            Request::ReadFirmwareVersion => Command::ReadFirmwareVersion,
            Request::SoftReset => Command::SoftReset,
        }
    }

    /// The 16-bit argument that follows the command, where the operation
    /// sends one. Continuous measurements started without a pressure send 0,
    /// which selects the default pressure.
    pub open spec fn spec_argument(&self) -> Option<u16> {
        match self {
            Request::TriggerContinuousMeasurements(None) => Some(0u16),
            Request::TriggerContinuousMeasurements(Some(pressure)) => Some(pressure@),
            Request::SetMeasurementInterval(interval) => Some(interval@),
            Request::SetAutomaticSelfCalibration(setting) => Some(setting@),
            Request::SetForcedRecalibration(frc) => Some(frc@),
            Request::SetTemperatureOffset(offset) => Some(offset@),
            Request::SetAltitudeCompensation(altitude) => Some(altitude@),
            _ => None,
        }
    }

    /// The number of bytes that the operation reads back after its write: 0
    /// where it reads nothing.
    pub open spec fn spec_response_len(&self) -> usize {
        match self {
            Request::GetMeasurementInterval => WORD_RESPONSE_LEN,
            Request::IsDataReady => WORD_RESPONSE_LEN,
            Request::ReadMeasurement => MEASUREMENT_RESPONSE_LEN,
            Request::GetAutomaticSelfCalibration => WORD_RESPONSE_LEN,
            Request::GetForcedRecalibration => WORD_RESPONSE_LEN,
            Request::GetTemperatureOffset => WORD_RESPONSE_LEN,
            Request::GetAltitudeCompensation => WORD_RESPONSE_LEN,
            Request::ReadFirmwareVersion => WORD_RESPONSE_LEN,
            _ => 0,
        }
    }

    /// The command that the operation sends.
    #[verifier::when_used_as_spec(spec_command)]
    pub fn command(&self) -> (command: Command)
        ensures
            command == self.spec_command(),
    {
        match self {
            Request::TriggerContinuousMeasurements(_) => Command::TriggerContinuousMeasurement,
            Request::StopContinuousMeasurements => Command::StopContinuousMeasurement,
            Request::SetMeasurementInterval(_) => Command::SetMeasurementInterval,
            Request::GetMeasurementInterval => Command::SetMeasurementInterval,
            Request::IsDataReady => Command::GetDataReady,
            Request::ReadMeasurement => Command::ReadMeasurement,
            Request::SetAutomaticSelfCalibration(_) => Command::ActivateAutomaticSelfCalibration,
            Request::GetAutomaticSelfCalibration => Command::ActivateAutomaticSelfCalibration,
            Request::SetForcedRecalibration(_) => Command::ForcedRecalibrationValue,
            Request::GetForcedRecalibration => Command::ForcedRecalibrationValue,
            Request::SetTemperatureOffset(_) => Command::SetTemperatureOffset,
            Request::GetTemperatureOffset => Command::SetTemperatureOffset,
            Request::SetAltitudeCompensation(_) => Command::SetAltitudeCompensation,
            Request::GetAltitudeCompensation => Command::SetAltitudeCompensation,
            Request::ReadFirmwareVersion => Command::ReadFirmwareVersion,
            Request::SoftReset => Command::SoftReset,
        }
    }

    /// The two bytes of the argument that follows the command, where the
    /// operation sends one.
    pub fn argument(&self) -> (argument: Option<[u8; 2]>)
        ensures
            match argument {
                Some(bytes) => self.spec_argument() is Some && bytes@ == u16_be_bytes(
                    self.spec_argument()->Some_0,
                ),
                None => self.spec_argument() is None,
            },
    {
        match self {
            Request::TriggerContinuousMeasurements(None) => {
                let bytes: [u8; 2] = [0x0, 0x0];
                assert(bytes@ =~= u16_be_bytes(0));
                Some(bytes)
            },
            Request::TriggerContinuousMeasurements(Some(pressure)) => Some(pressure.to_be_bytes()),
            Request::SetMeasurementInterval(interval) => Some(interval.to_be_bytes()),
            Request::SetAutomaticSelfCalibration(setting) => Some(setting.to_be_bytes()),
            Request::SetForcedRecalibration(frc) => Some(frc.to_be_bytes()),
            Request::SetTemperatureOffset(offset) => Some(offset.to_be_bytes()),
            Request::SetAltitudeCompensation(altitude) => Some(altitude.to_be_bytes()),
            _ => None,
        }
    }

    /// The number of bytes that the operation reads back after its write: 0
    /// where it reads nothing.
    #[verifier::when_used_as_spec(spec_response_len)]
    pub fn response_len(&self) -> (len: usize)
        ensures
            len == self.spec_response_len(),
    {
        match self {
            Request::GetMeasurementInterval => WORD_RESPONSE_LEN,
            Request::IsDataReady => WORD_RESPONSE_LEN,
            Request::ReadMeasurement => MEASUREMENT_RESPONSE_LEN,
            Request::GetAutomaticSelfCalibration => WORD_RESPONSE_LEN,
            Request::GetForcedRecalibration => WORD_RESPONSE_LEN,
            Request::GetTemperatureOffset => WORD_RESPONSE_LEN,
            Request::GetAltitudeCompensation => WORD_RESPONSE_LEN,
            Request::ReadFirmwareVersion => WORD_RESPONSE_LEN,
            _ => 0,
        }
    }
}

/// What an operation hands back once it is through.
#[derive(Debug)]
pub enum Response {
    /// The operation reads nothing back: the sensor took the write.
    Done,
    /// The measurement interval that the sensor reports.
    MeasurementInterval(MeasurementInterval),
    /// Whether a measurement is ready.
    DataStatus(DataStatus),
    /// The measurement read out.
    Measurement(Measurement),
    /// The state of the automatic self-calibration.
    AutomaticSelfCalibration(AutomaticSelfCalibration),
    /// The forced re-calibration value that the sensor reports.
    ForcedRecalibrationValue(ForcedRecalibrationValue),
    /// The temperature offset that the sensor reports.
    TemperatureOffset(TemperatureOffset),
    /// The altitude compensation that the sensor reports.
    AltitudeCompensation(AltitudeCompensation),
    /// The version of the firmware.
    FirmwareVersion(FirmwareVersion),
}

/// A [Response] with each value taken by its view.
pub enum ResponseView {
    /// See [Response::Done].
    Done,
    /// The interval in s.
    MeasurementInterval(u16),
    /// See [Response::DataStatus].
    DataStatus(DataStatus),
    /// See [Response::Measurement].
    Measurement(Measurement),
    /// See [Response::AutomaticSelfCalibration].
    AutomaticSelfCalibration(AutomaticSelfCalibration),
    /// The value in ppm.
    ForcedRecalibrationValue(u16),
    /// The offset in hundredths of a degree Celsius.
    TemperatureOffset(u16),
    /// The altitude in m above sea level.
    AltitudeCompensation(u16),
    /// See [Response::FirmwareVersion].
    FirmwareVersion(FirmwareVersion),
}

impl View for Response {
    type V = ResponseView;

    open spec fn view(&self) -> ResponseView {
        match self {
            Response::Done => ResponseView::Done,
            Response::MeasurementInterval(interval) => ResponseView::MeasurementInterval(
                interval@,
            ),
            Response::DataStatus(status) => ResponseView::DataStatus(*status),
            Response::Measurement(measurement) => ResponseView::Measurement(*measurement),
            Response::AutomaticSelfCalibration(setting) => ResponseView::AutomaticSelfCalibration(
                *setting,
            ),
            Response::ForcedRecalibrationValue(frc) => ResponseView::ForcedRecalibrationValue(
                frc@,
            ),
            Response::TemperatureOffset(offset) => ResponseView::TemperatureOffset(offset@),
            Response::AltitudeCompensation(altitude) => ResponseView::AltitudeCompensation(
                altitude@,
            ),
            Response::FirmwareVersion(version) => ResponseView::FirmwareVersion(*version),
        }
    }
}

/// Lifts the verdict on a single word into the response that `wrap` names.
pub open spec fn word_response(
    data: Seq<u8>,
    wrap: spec_fn(u16) -> ResponseView,
) -> Result<ResponseView, DataError> {
    match checked_word(data) {
        Ok(value) => Ok(wrap(value)),
        Err(error) => Err(error),
    }
}

impl Request {
    /// What the bytes read back mean for the operation: the value of the
    /// type that the operation asks for, or the reason for which the bytes
    /// are turned away. An operation that reads nothing has no bytes to
    /// judge and is through.
    pub open spec fn decoded(&self, data: Seq<u8>) -> Result<ResponseView, DataError> {
        match self {
            Request::GetMeasurementInterval => word_response(
                data,
                |value: u16| ResponseView::MeasurementInterval(value),
            ),
            Request::IsDataReady => match DataStatus::decoded(data) {
                Ok(status) => Ok(ResponseView::DataStatus(status)),
                Err(error) => Err(error),
            },
            Request::ReadMeasurement => match Measurement::decoded(data) {
                Ok(measurement) => Ok(ResponseView::Measurement(measurement)),
                Err(error) => Err(error),
            },
            Request::GetAutomaticSelfCalibration => match AutomaticSelfCalibration::decoded(data) {
                Ok(setting) => Ok(ResponseView::AutomaticSelfCalibration(setting)),
                Err(error) => Err(error),
            },
            Request::GetForcedRecalibration => word_response(
                data,
                |value: u16| ResponseView::ForcedRecalibrationValue(value),
            ),
            Request::GetTemperatureOffset => word_response(
                data,
                |value: u16| ResponseView::TemperatureOffset(value),
            ),
            Request::GetAltitudeCompensation => word_response(
                data,
                |value: u16| ResponseView::AltitudeCompensation(value),
            ),
            Request::ReadFirmwareVersion => match FirmwareVersion::decoded(data) {
                Ok(version) => Ok(ResponseView::FirmwareVersion(version)),
                Err(error) => Err(error),
            },
            _ => Ok(ResponseView::Done),
        }
    }

    /// Decodes the bytes read back for the operation.
    pub fn decode(&self, data: &[u8]) -> (result: Result<Response, DataError>)
        ensures
            match result {
                Ok(response) => self.decoded(data@) == Ok::<ResponseView, DataError>(response@),
                Err(error) => self.decoded(data@) == Err::<ResponseView, DataError>(error),
            },
    {
        match self {
            Request::GetMeasurementInterval => match MeasurementInterval::try_from(data) {
                Ok(interval) => Ok(Response::MeasurementInterval(interval)),
                Err(error) => Err(error),
            },
            Request::IsDataReady => match DataStatus::try_from(data) {
                Ok(status) => Ok(Response::DataStatus(status)),
                Err(error) => Err(error),
            },
            Request::ReadMeasurement => match Measurement::try_from(data) {
                Ok(measurement) => Ok(Response::Measurement(measurement)),
                Err(error) => Err(error),
            },
            Request::GetAutomaticSelfCalibration => match AutomaticSelfCalibration::try_from(
                data,
            ) {
                Ok(setting) => Ok(Response::AutomaticSelfCalibration(setting)),
                Err(error) => Err(error),
            },
            Request::GetForcedRecalibration => match ForcedRecalibrationValue::try_from(data) {
                Ok(frc) => Ok(Response::ForcedRecalibrationValue(frc)),
                Err(error) => Err(error),
            },
            Request::GetTemperatureOffset => match TemperatureOffset::try_from(data) {
                Ok(offset) => Ok(Response::TemperatureOffset(offset)),
                Err(error) => Err(error),
            },
            Request::GetAltitudeCompensation => match AltitudeCompensation::try_from(data) {
                Ok(altitude) => Ok(Response::AltitudeCompensation(altitude)),
                Err(error) => Err(error),
            },
            Request::ReadFirmwareVersion => match FirmwareVersion::try_from(data) {
                Ok(version) => Ok(Response::FirmwareVersion(version)),
                Err(error) => Err(error),
            },
            _ => Ok(Response::Done),
        }
    }
}

/// The result of an operation with the response taken by its view.
pub open spec fn outcome_view<I2cErr>(result: Result<Response, Scd30Error<I2cErr>>) -> Result<
    ResponseView,
    Scd30Error<I2cErr>,
> {
    match result {
        Ok(response) => Ok(response@),
        Err(error) => Err(error),
    }
}

/// How an operation ends once the bytes of its response are in, or the bus
/// has failed to bring them: an error of the bus is handed on as it came,
/// bytes are decoded for the operation.
pub open spec fn after_read<I2cErr>(request: Request, outcome: Result<Seq<u8>, I2cErr>) -> Result<
    ResponseView,
    Scd30Error<I2cErr>,
> {
    match outcome {
        Err(error) => Err(Scd30Error::I2cError(error)),
        Ok(data) => match request.decoded(data) {
            Ok(response) => Ok(response),
            Err(error) => Err(Scd30Error::DataError(error)),
        },
    }
}

/// The first step of an operation: one write to the sensor.
pub struct PendingWrite {
    request: Request,
    frame: Frame,
}

/// The second step of an operation that reads: one read from the sensor.
pub struct PendingRead {
    request: Request,
}

/// What follows the write of an operation.
pub enum Next<I2cErr> {
    /// The write went through and the operation reads its response next.
    Read(PendingRead),
    /// The operation is through, with this result.
    Done(Result<Response, Scd30Error<I2cErr>>),
}

impl Request {
    /// The bytes that the operation writes: the command alone, or the
    /// command, the argument and the argument's checksum.
    pub open spec fn frame(&self) -> Seq<u8> {
        match self.spec_argument() {
            Some(argument) => argument_frame(self.command(), u16_be_bytes(argument)),
            None => command_frame(self.command()),
        }
    }

    /// Starts the operation. Its first step is always a write.
    pub fn begin(self) -> (write: PendingWrite)
        ensures
            write.request() == self,
            write.frame_view() == self.frame(),
    {
        let frame = match self.argument() {
            Some(argument) => Frame::with_argument(self.command(), argument),
            None => Frame::command(self.command()),
        };
        PendingWrite { request: self, frame }
    }
}

impl PendingWrite {
    /// The operation that the write belongs to.
    pub closed spec fn request(&self) -> Request {
        self.request
    }

    /// The bytes to write.
    pub closed spec fn frame_view(&self) -> Seq<u8> {
        self.frame@
    }

    /// The address to write to: that of the sensor with the direction bit of
    /// a write.
    pub fn address(&self) -> (address: u8)
        ensures
            address == ADDRESS | WRITE_FLAG,
            address == 0x61,
    {
        assert(ADDRESS | WRITE_FLAG == 0x61) by (bit_vector);
        ADDRESS | WRITE_FLAG
    }

    /// The bytes to write.
    pub fn frame(&self) -> (frame: &Frame)
        ensures
            frame@ == self.frame_view(),
    {
        &self.frame
    }

    /// What follows the write, spelled out: an error of the bus ends the
    /// operation and is handed on as it came; after a write that went
    /// through, an operation that reads nothing is done and any other reads
    /// next.
    pub open spec fn next<I2cErr>(request: Request, outcome: Result<(), I2cErr>) -> Option<
        Result<ResponseView, Scd30Error<I2cErr>>,
    > {
        match outcome {
            Err(error) => Some(Err(Scd30Error::I2cError(error))),
            Ok(()) => if request.response_len() == 0 {
                Some(Ok(ResponseView::Done))
            } else {
                None
            },
        }
    }

    /// Takes the outcome of the write and says what follows.
    pub fn written<I2cErr>(self, outcome: Result<(), I2cErr>) -> (next: Next<I2cErr>)
        ensures
            match next {
                Next::Read(read) => Self::next(self.request(), outcome) is None && read.request()
                    == self.request(),
                Next::Done(result) => Self::next(self.request(), outcome) == Some(
                    outcome_view(result),
                ),
            },
    {
        match outcome {
            Err(error) => Next::Done(Err(Scd30Error::I2cError(error))),
            Ok(()) => if self.request.response_len() == 0 {
                Next::Done(Ok(Response::Done))
            } else {
                Next::Read(PendingRead { request: self.request })
            },
        }
    }
}

impl PendingRead {
    #[verifier::type_invariant]
    spec fn well_formed(&self) -> bool {
        self.request.response_len() != 0
    }

    /// The operation that the read belongs to.
    pub closed spec fn request(&self) -> Request {
        self.request
    }

    /// The address to read from: that of the sensor with the direction bit of
    /// a read.
    pub fn address(&self) -> (address: u8)
        ensures
            address == ADDRESS | READ_FLAG,
            address == 0x61,
    {
        assert(ADDRESS | READ_FLAG == 0x61) by (bit_vector);
        ADDRESS | READ_FLAG
    }

    /// The number of bytes to read: as many as the response of the operation
    /// holds, which is one word or the six words of a measurement.
    pub fn len(&self) -> (len: usize)
        ensures
            len == self.request().response_len(),
            len == WORD_RESPONSE_LEN || len == MEASUREMENT_RESPONSE_LEN,
    {
        proof {
            use_type_invariant(self);
        }
        self.request.response_len()
    }

    /// Takes the outcome of the read, the bytes read or the error of the bus,
    /// and ends the operation.
    pub fn received<I2cErr>(self, outcome: Result<&[u8], I2cErr>) -> (result: Result<
        Response,
        Scd30Error<I2cErr>,
    >)
        ensures
            outcome_view(result) == after_read(self.request(), bytes_view(outcome)),
    {
        match outcome {
            Err(error) => Err(Scd30Error::I2cError(error)),
            Ok(data) => match self.request.decode(data) {
                Ok(response) => Ok(response),
                Err(error) => Err(Scd30Error::from(error)),
            },
        }
    }
}

/// The outcome of a read with its bytes as a sequence.
pub open spec fn bytes_view<I2cErr>(outcome: Result<&[u8], I2cErr>) -> Result<Seq<u8>, I2cErr> {
    match outcome {
        Ok(data) => Ok(data@),
        Err(error) => Err(error),
    }
}

impl Request {
    /// A response of another length than the one that the operation reads
    /// is turned away for its length, whatever it holds.
    pub proof fn lemma_wrong_length_fails(self, data: Seq<u8>)
        requires
            self.response_len() != 0,
            data.len() != self.response_len(),
        ensures
            self.decoded(data) == Err::<ResponseView, DataError>(
                DataError::ReceivedBufferWrongSize,
            ),
    {
    }

    /// A response that the operation accepts is turned away for its checksum
    /// once exactly one of its bytes is changed: no part of it is decoded.
    pub proof fn lemma_altered_response_fails(self, data: Seq<u8>, altered: Seq<u8>, at: int)
        requires
            self.response_len() != 0,
            self.decoded(data) is Ok,
            altered.len() == data.len(),
            0 <= at < data.len(),
            altered[at] != data[at],
            forall|j: int| 0 <= j < data.len() && j != at ==> altered[j] == data[j],
        ensures
            self.decoded(altered) == Err::<ResponseView, DataError>(DataError::CrcFailed),
    {
        lemma_one_changed_byte_fails(data, altered, at);
    }
}

} // verus!
