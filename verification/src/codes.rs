//! The three closed vocabularies of the CM17A protocol and their wire codes.
//!
//! Every value is a variant of an enum, so a house, device or command that
//! the protocol does not know cannot be written down. The numbers are the
//! published CM17A constants.

use vstd::prelude::*;

verus! {

/// An X10 house letter, `A` to `P`.
#[derive(Clone, Copy, Debug, PartialEq, Eq, Structural)]
pub enum HouseCode {
    A,
    B,
    C,
    D,
    E,
    F,
    G,
    H,
    I,
    J,
    K,
    L,
    M,
    N,
    O,
    P,
}

/// An X10 unit number, 1 to 16, within a house.
#[derive(Clone, Copy, Debug, PartialEq, Eq, Structural)]
pub enum Device {
    Device1,
    Device2,
    Device3,
    Device4,
    Device5,
    Device6,
    Device7,
    Device8,
    Device9,
    Device10,
    Device11,
    Device12,
    Device13,
    Device14,
    Device15,
    Device16,
}

/// What the receiver is asked to do.
///
/// `On` and `Off` address one device. The other six address a whole house.
#[derive(Clone, Copy, Debug, PartialEq, Eq, Structural)]
pub enum Command {
    On,
    Off,
    Dim,
    Bright,
    AllOff,
    AllOn,
    LampsOff,
    LampsOn,
}

impl HouseCode {
    /// The house's four-bit code, placed in the high nibble of a byte.
    pub open spec fn spec_code(self) -> u8 {
        match self {
            HouseCode::A => 0x60,
            HouseCode::B => 0x70,
            HouseCode::C => 0x40,
            HouseCode::D => 0x50,
            HouseCode::E => 0x80,
            HouseCode::F => 0x90,
            HouseCode::G => 0xA0,
            HouseCode::H => 0xB0,
            HouseCode::I => 0xE0,
            HouseCode::J => 0xF0,
            HouseCode::K => 0xC0,
            HouseCode::L => 0xD0,
            HouseCode::M => 0x00,
            HouseCode::N => 0x10,
            HouseCode::O => 0x20,
            HouseCode::P => 0x30,
        }
    }

    /// The house's four-bit code, placed in the high nibble of a byte.
    #[verifier::when_used_as_spec(spec_code)]
    pub fn code(self) -> (c: u8)
        ensures
            c == self.spec_code(),
    {
        match self {
            HouseCode::A => 0x60,
            HouseCode::B => 0x70,
            HouseCode::C => 0x40,
            HouseCode::D => 0x50,
            HouseCode::E => 0x80,
            HouseCode::F => 0x90,
            HouseCode::G => 0xA0,
            HouseCode::H => 0xB0,
            HouseCode::I => 0xE0,
            HouseCode::J => 0xF0,
            HouseCode::K => 0xC0,
            HouseCode::L => 0xD0,
            HouseCode::M => 0x00,
            HouseCode::N => 0x10,
            HouseCode::O => 0x20,
            HouseCode::P => 0x30,
        }
    }
}

impl Device {
    /// The device's sixteen-bit code. Its high byte goes into the frame's
    /// house byte, its low byte into the command byte.
    pub open spec fn spec_code(self) -> u16 {
        match self {
            Device::Device1 => 0x0000,
            Device::Device2 => 0x0010,
            Device::Device3 => 0x0008,
            Device::Device4 => 0x0018,
            Device::Device5 => 0x0040,
            Device::Device6 => 0x0050,
            Device::Device7 => 0x0048,
            Device::Device8 => 0x0058,
            Device::Device9 => 0x0400,
            Device::Device10 => 0x0410,
            Device::Device11 => 0x0408,
            Device::Device12 => 0x0418,
            Device::Device13 => 0x0440,
            Device::Device14 => 0x0450,
            Device::Device15 => 0x0448,
            Device::Device16 => 0x0458,
        }
    }

    /// The device's sixteen-bit code. Its high byte goes into the frame's
    /// house byte, its low byte into the command byte.
    #[verifier::when_used_as_spec(spec_code)]
    pub fn code(self) -> (c: u16)
        ensures
            c == self.spec_code(),
    {
        match self {
            Device::Device1 => 0x0000,
            Device::Device2 => 0x0010,
            Device::Device3 => 0x0008,
            Device::Device4 => 0x0018,
            Device::Device5 => 0x0040,
            Device::Device6 => 0x0050,
            Device::Device7 => 0x0048,
            Device::Device8 => 0x0058,
            Device::Device9 => 0x0400,
            Device::Device10 => 0x0410,
            Device::Device11 => 0x0408,
            Device::Device12 => 0x0418,
            Device::Device13 => 0x0440,
            Device::Device14 => 0x0450,
            Device::Device15 => 0x0448,
            Device::Device16 => 0x0458,
        }
    }
}

impl Command {
    /// The command's one-byte code.
    pub open spec fn spec_code(self) -> u8 {
        match self {
            Command::On => 0x00,
            Command::Off => 0x20,
            Command::Dim => 0x98,
            Command::Bright => 0x88,
            Command::AllOff => 0x80,
            Command::AllOn => 0x91,
            Command::LampsOff => 0x84,
            Command::LampsOn => 0x94,
        }
    }

    /// The command's one-byte code.
    #[verifier::when_used_as_spec(spec_code)]
    pub fn code(self) -> (c: u8)
        ensures
            c == self.spec_code(),
    {
        match self {
            Command::On => 0x00,
            Command::Off => 0x20,
            Command::Dim => 0x98,
            Command::Bright => 0x88,
            Command::AllOff => 0x80,
            Command::AllOn => 0x91,
            Command::LampsOff => 0x84,
            Command::LampsOn => 0x94,
        }
    }

    /// Whether the command addresses a single device (`On`, `Off`) rather
    /// than a whole house.
    pub open spec fn spec_needs_device(self) -> bool {
        self is On || self is Off
    }

    /// Whether the command addresses a single device (`On`, `Off`) rather
    /// than a whole house.
    #[verifier::when_used_as_spec(spec_needs_device)]
    pub fn needs_device(self) -> (b: bool)
        ensures
            b == self.spec_needs_device(),
    {
        match self {
            Command::On | Command::Off => true,
            _ => false,
        }
    }
}

} // verus!
