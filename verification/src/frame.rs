//! Frames written to the sensor: a command, and where the command takes an
//! argument, the argument followed by its checksum.
use crate::command::Command;
use crate::endian::u16_be_bytes;
use crate::error::Scd30Error;
use crate::util::{compute_crc8, crc8};
use vstd::prelude::*;

verus! {

/// Length of a frame that carries a command alone.
pub const COMMAND_LEN: usize = 2;

/// Length of a frame that carries a command, an argument and its checksum.
pub const FRAME_LEN: usize = 5;

/// The bytes of a frame that carries `command` alone.
pub open spec fn command_frame(command: Command) -> Seq<u8> {
    u16_be_bytes(command.opcode())
}

/// The bytes of a frame that carries `command` and the two bytes of
/// `argument`: the checksum of the argument closes the frame.
pub open spec fn argument_frame(command: Command, argument: Seq<u8>) -> Seq<u8> {
    u16_be_bytes(command.opcode()) + argument + seq![crc8(argument)]
}

/// The bytes of the frame for `command` and `argument`, where there is one:
/// an argument must be exactly two bytes long.
pub open spec fn frame_bytes(command: Command, argument: Option<Seq<u8>>) -> Option<Seq<u8>> {
    match argument {
        None => Some(command_frame(command)),
        Some(bytes) => if bytes.len() == 2 {
            Some(argument_frame(command, bytes))
        } else {
            None
        },
    }
}

/// The payload of one write to the sensor, held in place without allocation.
#[derive(Clone, Copy, Debug, PartialEq)]
pub struct Frame {
    bytes: [u8; 5],
    len: usize,
}

impl View for Frame {
    type V = Seq<u8>;

    /// The bytes that go over the bus, in order.
    closed spec fn view(&self) -> Seq<u8> {
        self.bytes@.take(self.len as int)
    }
}

impl Frame {
    #[verifier::type_invariant]
    spec fn well_formed(&self) -> bool {
        self.len == COMMAND_LEN || self.len == FRAME_LEN
    }

    /// The frame that carries `command` alone.
    pub fn command(command: Command) -> (frame: Self)
        ensures
            frame@ == command_frame(command),
    {
        let opcode = command.to_be_bytes();
        let frame = Frame { bytes: [opcode[0], opcode[1], 0, 0, 0], len: COMMAND_LEN };
        assert(frame@ =~= command_frame(command));
        frame
    }

    /// The frame that carries `command`, `argument` and the checksum of
    /// `argument`.
    pub fn with_argument(command: Command, argument: [u8; 2]) -> (frame: Self)
        ensures
            frame@ == argument_frame(command, argument@),
    {
        let opcode = command.to_be_bytes();
        let crc = compute_crc8(argument.as_slice());
        let frame = Frame {
            bytes: [opcode[0], opcode[1], argument[0], argument[1], crc],
            len: FRAME_LEN,
        };
        assert(frame@ =~= argument_frame(command, argument@));
        frame
    }

    /// The bytes of the frame.
    pub fn as_slice(&self) -> (bytes: &[u8])
        ensures
            bytes@ == self@,
            bytes@.len() == COMMAND_LEN || bytes@.len() == FRAME_LEN,
    {
        proof {
            use_type_invariant(self);
        }
        let bytes = &self.bytes[0..self.len];
        assert(bytes@ =~= self@);
        bytes
    }

    /// The number of bytes of the frame: 2 or 5.
    pub fn len(&self) -> (len: usize)
        ensures
            len == self@.len(),
            len == COMMAND_LEN || len == FRAME_LEN,
    {
        proof {
            use_type_invariant(self);
        }
        self.len
    }
}

/// Builds the frame that carries `command` and, where `data` is given, the
/// two bytes of `data` followed by their checksum. An argument of any other
/// length is refused with [SentDataToBig](Scd30Error::SentDataToBig).
pub fn encode_write<I2cErr>(command: Command, data: Option<&[u8]>) -> (result: Result<
    Frame,
    Scd30Error<I2cErr>,
>)
    ensures
        match result {
            Ok(frame) => frame_bytes(command, argument_view(data)) == Some(frame@),
            Err(error) => frame_bytes(command, argument_view(data)) is None
                && error == Scd30Error::<I2cErr>::SentDataToBig,
        },
{
    match data {
        None => Ok(Frame::command(command)),
        Some(data) => {
            if data.len() != 2 {
                return Err(Scd30Error::SentDataToBig);
            }
            let argument: [u8; 2] = [data[0], data[1]];
            assert(argument@ =~= data@);
            Ok(Frame::with_argument(command, argument))
        },
    }
}

/// The argument of a frame as a sequence of bytes.
pub open spec fn argument_view(data: Option<&[u8]>) -> Option<Seq<u8>> {
    match data {
        Some(bytes) => Some(bytes@),
        None => None,
    }
}

} // verus!
