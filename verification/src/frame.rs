//! Encoding a command into the five-byte CM17A frame.
//!
//! A frame is `[0xD5, 0xAA, house byte, command byte, 0xAD]`. The house byte
//! carries the house code in its high nibble and the high byte of the device
//! code below it. The command byte carries the low byte of the device code
//! merged with the command code. Only `On` and `Off` address a device: for
//! every other command the device takes no part in the frame.

use vstd::prelude::*;
use crate::codes::{Command, Device, HouseCode};

verus! {

/// The five bytes that go out on the wire for one command.
pub type CM17ACommand = [u8; 5];

/// First byte of every frame.
pub const HEADER_FIRST: u8 = 0xD5;

/// Second byte of every frame.
pub const HEADER_SECOND: u8 = 0xAA;

/// Last byte of every frame.
pub const FOOTER: u8 = 0xAD;

/// Why a command could not be encoded.
#[derive(Clone, Copy, Debug, PartialEq, Eq, Structural)]
pub enum EncodeError {
    /// `On` or `Off` was asked for without naming a device.
    DeviceRequired,
}

/// The device code that enters the frame: the device's own code where the
/// command addresses a device and one is given, zero otherwise.
pub open spec fn device_bits(device: Option<Device>, command: Command) -> u16 {
    if command.needs_device() && device is Some {
        device->0.code()
    } else {
        0
    }
}

/// Third byte of the frame: house code merged with the device's high byte.
pub open spec fn house_byte(house: HouseCode, device: Option<Device>, command: Command) -> u8 {
    house.code() | ((device_bits(device, command) >> 8) as u8)
}

/// Fourth byte of the frame: the device's low byte merged with the command
/// code.
pub open spec fn command_byte(device: Option<Device>, command: Command) -> u8 {
    ((device_bits(device, command) & 0xFF) as u8) | command.code()
}

/// The frame for a command, as a sequence of bytes.
pub open spec fn frame_of(house: HouseCode, device: Option<Device>, command: Command) -> Seq<u8> {
    seq![
        HEADER_FIRST,
        HEADER_SECOND,
        house_byte(house, device, command),
        command_byte(device, command),
        FOOTER,
    ]
}

/// What encoding yields: the frame, or the reason there is none.
pub open spec fn encoding(house: HouseCode, device: Option<Device>, command: Command) -> Result<
    Seq<u8>,
    EncodeError,
> {
    if command.needs_device() && device is None {
        Err(EncodeError::DeviceRequired)
    } else {
        Ok(frame_of(house, device, command))
    }
}

/// Whether `result` is what encoding the three inputs yields.
pub open spec fn is_encoding(
    house: HouseCode,
    device: Option<Device>,
    command: Command,
    result: Result<CM17ACommand, EncodeError>,
) -> bool {
    match result {
        Ok(frame) => encoding(house, device, command) == Ok::<Seq<u8>, EncodeError>(frame@),
        Err(error) => encoding(house, device, command) == Err::<Seq<u8>, EncodeError>(error),
    }
}

/// Encodes a command into its frame.
///
/// Fails with [`EncodeError::DeviceRequired`] exactly when the command is
/// `On` or `Off` and no device is given. A device given with any other
/// command is ignored.
pub fn make_command(house: HouseCode, device: Option<Device>, command: Command) -> (result: Result<
    CM17ACommand,
    EncodeError,
>)
    ensures
        is_encoding(house, device, command, result),
        result is Err <==> command.needs_device() && device is None,
        result matches Ok(frame) ==> frame@.len() == 5 && frame@[0] == 0xD5 && frame@[1] == 0xAA
            && frame@[4] == 0xAD,
{
    let dev: u16 = if command.needs_device() {
        match device {
            Some(d) => d.code(),
            None => {
                return Err(EncodeError::DeviceRequired);
            },
        }
    } else {
        0
    };
    let device_high: u8 = (dev >> 8) as u8;
    let device_low: u8 = (dev & 0xFF) as u8;
    let frame: CM17ACommand = [
        HEADER_FIRST,
        HEADER_SECOND,
        house.code() | device_high,
        device_low | command.code(),
        FOOTER,
    ];
    Ok(frame)
}

/// Encoding is a function of its inputs: two results that are each the
/// encoding of the same house, device and command are the same result,
/// byte for byte.
pub proof fn lemma_encoding_is_deterministic(
    house: HouseCode,
    device: Option<Device>,
    command: Command,
    first: Result<CM17ACommand, EncodeError>,
    second: Result<CM17ACommand, EncodeError>,
)
    requires
        is_encoding(house, device, command, first),
        is_encoding(house, device, command, second),
    ensures
        first == second,
{
    if first is Ok {
        assert(first->Ok_0@ == second->Ok_0@);
        assert(first->Ok_0 =~= second->Ok_0);
    }
}

/// `On` and `Off` without a device are refused with
/// [`EncodeError::DeviceRequired`], whatever the house. Every other
/// combination has a frame.
pub proof fn lemma_device_requirement(house: HouseCode, device: Option<Device>, command: Command)
    ensures
        encoding(house, None, Command::On) == Err::<Seq<u8>, EncodeError>(
            EncodeError::DeviceRequired,
        ),
        encoding(house, None, Command::Off) == Err::<Seq<u8>, EncodeError>(
            EncodeError::DeviceRequired,
        ),
        encoding(house, device, command) is Ok <==> device is Some || !(command is On || command
            is Off),
{
}

/// A command that addresses a whole house takes nothing from the device:
/// whichever device is given, or none, the frame is the same, its house
/// byte is the bare house code and its command byte the bare command code.
pub proof fn lemma_house_command_ignores_device(
    house: HouseCode,
    device: Option<Device>,
    other: Option<Device>,
    command: Command,
)
    requires
        !command.needs_device(),
    ensures
        encoding(house, device, command) == encoding(house, other, command),
        encoding(house, device, command) == Ok::<Seq<u8>, EncodeError>(
            seq![HEADER_FIRST, HEADER_SECOND, house.code(), command.code(), FOOTER],
        ),
{
    let h = house.code();
    let c = command.code();
    assert(h | ((0u16 >> 8) as u8) == h) by (bit_vector);
    assert(((0u16 & 0xFF) as u8) | c == c) by (bit_vector);
}

/// Every frame has five bytes, begins with `0xD5 0xAA` and ends with
/// `0xAD`.
pub proof fn lemma_frame_shape(house: HouseCode, device: Option<Device>, command: Command)
    ensures
        frame_of(house, device, command).len() == 5,
        frame_of(house, device, command)[0] == 0xD5,
        frame_of(house, device, command)[1] == 0xAA,
        frame_of(house, device, command)[4] == 0xAD,
{
}

/// The two middle bytes of a frame in plain arithmetic. The codes that are
/// merged never share a bit, so merging them adds them: the house byte is
/// the house code plus the upper half of the device code, the command byte
/// is the lower half of the device code plus the command code.
pub proof fn lemma_frame_bytes_add_up(house: HouseCode, device: Option<Device>, command: Command)
    ensures
        house_byte(house, device, command) == house.code() + device_bits(device, command) / 256,
        command_byte(device, command) == device_bits(device, command) % 256 + command.code(),
{
    let h = house.code();
    let c = command.code();
    let bits = device_bits(device, command);
    let high = (bits >> 8) as u8;
    let low = (bits & 0xFF) as u8;
    assert(high == bits / 256 && low == bits % 256) by (bit_vector)
        requires
            high == (bits >> 8) as u8,
            low == (bits & 0xFF) as u8,
    ;
    assert(h | high == h + high) by (bit_vector)
        requires
            h % 16 == 0,
            high < 16,
    ;
    assert(low | c == low + c) by (bit_vector)
        requires
            low == 0 || c == 0 || (c == 0x20 && (low / 32) % 2 == 0),
    ;
}

/// Frames are unambiguous: two commands that have the same frame name the
/// same house and the same command and, where the command addresses a
/// device, the same device.
pub proof fn lemma_frame_is_unambiguous(
    house: HouseCode,
    device: Option<Device>,
    command: Command,
    other_house: HouseCode,
    other_device: Option<Device>,
    other_command: Command,
)
    requires
        encoding(house, device, command) is Ok,
        encoding(house, device, command) == encoding(other_house, other_device, other_command),
    ensures
        house == other_house,
        command == other_command,
        command.needs_device() ==> device == other_device,
{
    lemma_frame_bytes_add_up(house, device, command);
    lemma_frame_bytes_add_up(other_house, other_device, other_command);
    let frame = frame_of(house, device, command);
    let other = frame_of(other_house, other_device, other_command);
    assert(frame[2] == other[2]);
    assert(frame[3] == other[3]);
}

} // verus!
