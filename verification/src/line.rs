//! The two control lines and the four signals that the CM17A understands.
//!
//! The dongle is powered and clocked through RTS and DTR alone. With both
//! lines low it is reset; with both high it waits for a bit; dropping one
//! of them for a moment hands it a bit: DTR low (RTS stays high) is a one,
//! RTS low (DTR stays high) is a zero.

use vstd::prelude::*;

verus! {

/// Levels of the two control lines: `true` is asserted.
#[derive(Clone, Copy, Debug, PartialEq, Eq, Structural)]
pub struct ControlLines {
    pub rts: bool,
    pub dtr: bool,
}

/// Both lines low: the dongle is idle and unpowered.
pub open spec fn spec_reset() -> ControlLines {
    ControlLines { rts: false, dtr: false }
}

/// Both lines high: the dongle is ready for the next bit.
pub open spec fn spec_standby() -> ControlLines {
    ControlLines { rts: true, dtr: true }
}

/// RTS high, DTR low: a one bit.
pub open spec fn spec_logical1() -> ControlLines {
    ControlLines { rts: true, dtr: false }
}

/// RTS low, DTR high: a zero bit.
pub open spec fn spec_logical0() -> ControlLines {
    ControlLines { rts: false, dtr: true }
}

/// The levels that signal `bit`.
pub open spec fn spec_bit_lines(bit: bool) -> ControlLines {
    if bit {
        spec_logical1()
    } else {
        spec_logical0()
    }
}

/// Bit `k` of `byte`, where bit 0 is the most significant and bit 7 the
/// least. Positions past 7 hold no bit.
pub open spec fn spec_bit_at(byte: u8, k: u8) -> bool {
    k < 8 && (byte >> (7 - k) as u8) & 1 == 1
}

/// Both lines low: the dongle is idle and unpowered.
#[verifier::when_used_as_spec(spec_reset)]
pub fn reset() -> (lines: ControlLines)
    ensures
        lines == spec_reset(),
{
    ControlLines { rts: false, dtr: false }
}

/// Both lines high: the dongle is ready for the next bit.
#[verifier::when_used_as_spec(spec_standby)]
pub fn standby() -> (lines: ControlLines)
    ensures
        lines == spec_standby(),
{
    ControlLines { rts: true, dtr: true }
}

/// RTS high, DTR low: a one bit.
#[verifier::when_used_as_spec(spec_logical1)]
pub fn logical1() -> (lines: ControlLines)
    ensures
        lines == spec_logical1(),
{
    ControlLines { rts: true, dtr: false }
}

/// RTS low, DTR high: a zero bit.
#[verifier::when_used_as_spec(spec_logical0)]
pub fn logical0() -> (lines: ControlLines)
    ensures
        lines == spec_logical0(),
{
    ControlLines { rts: false, dtr: true }
}

/// The levels that signal `bit`.
#[verifier::when_used_as_spec(spec_bit_lines)]
pub fn bit_lines(bit: bool) -> (lines: ControlLines)
    ensures
        lines == spec_bit_lines(bit),
        lines.rts == bit,
        lines.dtr == !bit,
{
    if bit {
        logical1()
    } else {
        logical0()
    }
}

/// Bit `k` of `byte`, where bit 0 is the most significant and bit 7 the
/// least. Positions past 7 hold no bit.
#[verifier::when_used_as_spec(spec_bit_at)]
pub fn bit_at(byte: u8, k: u8) -> (bit: bool)
    ensures
        bit == spec_bit_at(byte, k),
{
    if k < 8 {
        let shift: u8 = 7 - k;
        (byte >> shift) & 1 == 1
    } else {
        false
    }
}

/// The number a bit stands for: one if set, zero if not.
pub open spec fn bit_value(bit: bool) -> int {
    if bit {
        1
    } else {
        0
    }
}

/// Bit 0 is worth 128 and bit 7 is worth 1: read from the most significant
/// end, the eight bits of a byte spell its value.
pub proof fn lemma_bits_spell_byte(byte: u8)
    ensures
        byte == 128 * bit_value(spec_bit_at(byte, 0)) + 64 * bit_value(spec_bit_at(byte, 1)) + 32
            * bit_value(spec_bit_at(byte, 2)) + 16 * bit_value(spec_bit_at(byte, 3)) + 8
            * bit_value(spec_bit_at(byte, 4)) + 4 * bit_value(spec_bit_at(byte, 5)) + 2
            * bit_value(spec_bit_at(byte, 6)) + bit_value(spec_bit_at(byte, 7)),
{
    assert(byte == (if (byte >> 7u8) & 1 == 1 { 128int } else { 0 })
        + (if (byte >> 6u8) & 1 == 1 { 64int } else { 0 })
        + (if (byte >> 5u8) & 1 == 1 { 32int } else { 0 })
        + (if (byte >> 4u8) & 1 == 1 { 16int } else { 0 })
        + (if (byte >> 3u8) & 1 == 1 { 8int } else { 0 })
        + (if (byte >> 2u8) & 1 == 1 { 4int } else { 0 })
        + (if (byte >> 1u8) & 1 == 1 { 2int } else { 0 })
        + (if (byte >> 0u8) & 1 == 1 { 1int } else { 0 })) by (bit_vector);
}

} // verus!
