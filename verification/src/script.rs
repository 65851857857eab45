//! The script of a transmission: every line change and pause, in order.
//!
//! To send a frame, a driver
//!
//! 1. resets the lines, then puts them in standby;
//! 2. waits the command delay, during which the dongle powers up;
//! 3. sends every byte of the frame in order, each from its most
//!    significant bit to its least: the bit's signal, then standby;
//! 4. waits the command delay again;
//! 5. resets the lines.
//!
//! Every line change is followed by the settle delay. The settle delay is
//! short, well under a millisecond. The command delay is some hundred
//! milliseconds long.

use vstd::prelude::*;
use crate::frame::CM17ACommand;
#[allow(unused_imports)]
use crate::line::{
    bit_at, bit_lines, reset, spec_bit_at, spec_bit_lines, spec_reset, spec_standby, standby,
    ControlLines,
};

verus! {

/// Length of the settle delay, in nanoseconds.
pub const SETTLE_NANOS: u64 = 1_400;

/// Length of the command delay, in nanoseconds.
pub const COMMAND_NANOS: u64 = 350_000_000;

/// The two pauses of the protocol.
#[derive(Clone, Copy, Debug, PartialEq, Eq, Structural)]
pub enum Delay {
    /// After every line change, so that the lines are stable before the
    /// next one.
    Settle,
    /// Before the first bit and after the last one, while the dongle
    /// powers up and down.
    Command,
}

impl Delay {
    /// How long the pause lasts, in nanoseconds.
    pub open spec fn spec_nanos(self) -> u64 {
        match self {
            Delay::Settle => SETTLE_NANOS,
            Delay::Command => COMMAND_NANOS,
        }
    }

    /// How long the pause lasts, in nanoseconds.
    #[verifier::when_used_as_spec(spec_nanos)]
    pub fn nanos(self) -> (nanos: u64)
        ensures
            nanos == self.spec_nanos(),
            self is Settle ==> nanos < 1_000_000,
            self is Command ==> 100_000_000 <= nanos < 1_000_000_000,
    {
        match self {
            Delay::Settle => SETTLE_NANOS,
            Delay::Command => COMMAND_NANOS,
        }
    }
}

/// One thing for the driver to do.
#[derive(Clone, Copy, Debug, PartialEq, Eq, Structural)]
pub enum Action {
    /// Put the control lines at these levels.
    SetLines(ControlLines),
    /// Do nothing for the length of this delay.
    Wait(Delay),
}

/// A signal: the line change and the settle delay after it.
pub open spec fn signal(lines: ControlLines) -> Seq<Action> {
    seq![Action::SetLines(lines), Action::Wait(Delay::Settle)]
}

/// Sending one bit: its signal, then standby.
pub open spec fn send_bit(bit: bool) -> Seq<Action> {
    signal(spec_bit_lines(bit)) + signal(spec_standby())
}

/// Sending the `count` most significant bits of `byte`, highest first.
pub open spec fn send_bits(byte: u8, count: nat) -> Seq<Action>
    decreases count,
{
    if count == 0 {
        Seq::empty()
    } else {
        send_bits(byte, (count - 1) as nat) + send_bit(spec_bit_at(byte, (count - 1) as u8))
    }
}

/// Sending a whole byte.
pub open spec fn send_byte(byte: u8) -> Seq<Action> {
    send_bits(byte, 8)
}

/// Sending bytes one after the other.
pub open spec fn send_bytes(bytes: Seq<u8>) -> Seq<Action>
    decreases bytes.len(),
{
    if bytes.len() == 0 {
        Seq::empty()
    } else {
        send_bytes(bytes.drop_last()) + send_byte(bytes.last())
    }
}

/// Everything a driver performs, in order, to transmit `frame`.
pub open spec fn script(frame: Seq<u8>) -> Seq<Action> {
    signal(spec_reset()) + signal(spec_standby()) + seq![Action::Wait(Delay::Command)]
        + send_bytes(frame) + seq![Action::Wait(Delay::Command)] + signal(spec_reset())
}

/// Number of actions in the script of a five-byte frame.
pub const SCRIPT_LEN: usize = 168;

/// Number of actions before the first bit.
pub const PREAMBLE_LEN: usize = 5;

/// Number of actions that send one bit.
pub const BIT_LEN: usize = 4;

/// Number of actions that send one byte.
pub const BYTE_LEN: usize = 32;

/// The `phase`-th of the four actions that send `bit`.
pub open spec fn bit_action(bit: bool, phase: int) -> Action {
    if phase == 0 {
        Action::SetLines(spec_bit_lines(bit))
    } else if phase == 2 {
        Action::SetLines(spec_standby())
    } else {
        Action::Wait(Delay::Settle)
    }
}

/// The `j`-th of the actions that send `bytes`, found by position alone.
pub open spec fn bytes_action(bytes: Seq<u8>, j: int) -> Action {
    let byte = bytes[j / (BYTE_LEN as int)];
    let k = (j % (BYTE_LEN as int)) / (BIT_LEN as int);
    bit_action(spec_bit_at(byte, k as u8), j % (BIT_LEN as int))
}

/// The `i`-th action of the script, found by position alone.
pub open spec fn action_at(frame: Seq<u8>, i: int) -> Action {
    let body = i - PREAMBLE_LEN;
    let tail = body - BYTE_LEN * frame.len();
    if i == 0 {
        Action::SetLines(spec_reset())
    } else if i == 2 {
        Action::SetLines(spec_standby())
    } else if i == 4 {
        Action::Wait(Delay::Command)
    } else if i < PREAMBLE_LEN {
        Action::Wait(Delay::Settle)
    } else if tail < 0 {
        bytes_action(frame, body)
    } else if tail == 0 {
        Action::Wait(Delay::Command)
    } else if tail == 1 {
        Action::SetLines(spec_reset())
    } else {
        Action::Wait(Delay::Settle)
    }
}

/// The actions that send a bit, one by one.
pub proof fn lemma_send_bit(bit: bool)
    ensures
        send_bit(bit).len() == BIT_LEN,
        forall|phase: int|
            0 <= phase < BIT_LEN ==> send_bit(bit)[phase] == bit_action(bit, phase),
{
}

/// Sending `count` bits takes four actions for each, and the bits go out
/// highest first.
pub proof fn lemma_send_bits(byte: u8, count: nat)
    requires
        count <= 8,
    ensures
        send_bits(byte, count).len() == BIT_LEN * count,
        forall|j: int|
            0 <= j < BIT_LEN * count ==> #[trigger] send_bits(byte, count)[j] == bit_action(
                spec_bit_at(byte, (j / (BIT_LEN as int)) as u8),
                j % (BIT_LEN as int),
            ),
    decreases count,
{
    if count > 0 {
        let done = (count - 1) as nat;
        let bit = spec_bit_at(byte, done as u8);
        let head = send_bits(byte, done);
        let tail = send_bit(bit);
        lemma_send_bits(byte, done);
        lemma_send_bit(bit);
        assert(send_bits(byte, count) == head + tail);
        assert forall|j: int| 0 <= j < 4 * count implies #[trigger] send_bits(byte, count)[j]
            == bit_action(spec_bit_at(byte, (j / 4) as u8), j % 4) by {
            if j < 4 * done {
                assert(send_bits(byte, count)[j] == head[j]);
            } else {
                let phase = j - 4 * done;
                assert(send_bits(byte, count)[j] == tail[phase]);
                assert(j / 4 == done && j % 4 == phase);
            }
        }
    }
}

/// Sending bytes takes thirty-two actions for each, and the bytes go out in
/// order.
pub proof fn lemma_send_bytes(bytes: Seq<u8>)
    ensures
        send_bytes(bytes).len() == BYTE_LEN * bytes.len(),
        forall|j: int|
            0 <= j < BYTE_LEN * bytes.len() ==> #[trigger] send_bytes(bytes)[j] == bytes_action(
                bytes,
                j,
            ),
    decreases bytes.len(),
{
    if bytes.len() > 0 {
        let front = bytes.drop_last();
        let done = front.len() as int;
        let head = send_bytes(front);
        let tail = send_byte(bytes.last());
        lemma_send_bytes(front);
        lemma_send_bits(bytes.last(), 8);
        assert(send_bytes(bytes) == head + tail);
        assert forall|j: int| 0 <= j < 32 * bytes.len() implies #[trigger] send_bytes(bytes)[j]
            == bytes_action(bytes, j) by {
            if j < 32 * done {
                assert(send_bytes(bytes)[j] == head[j]);
                assert(0 <= j / 32 < done);
                assert(front[j / 32] == bytes[j / 32]);
            } else {
                let rest = j - 32 * done;
                assert(send_bytes(bytes)[j] == tail[rest]);
                assert(j / 32 == done && j % 32 == rest);
                assert(rest % 4 == j % 4);
                assert(bytes[done] == bytes.last());
            }
        }
    }
}

/// The script has eight actions around thirty-two for each byte, and its
/// `i`-th action is the one that [`action_at`] finds by position.
pub proof fn lemma_script(frame: Seq<u8>)
    ensures
        script(frame).len() == 8 + BYTE_LEN * frame.len(),
        forall|i: int|
            0 <= i < script(frame).len() ==> #[trigger] script(frame)[i] == action_at(frame, i),
{
    let before = signal(spec_reset()) + signal(spec_standby()) + seq![
        Action::Wait(Delay::Command),
    ];
    let bits = send_bytes(frame);
    let after = seq![Action::Wait(Delay::Command)] + signal(spec_reset());
    lemma_send_bytes(frame);
    assert(before.len() == 5 && after.len() == 3);
    assert(script(frame) =~= before + bits + after);
    assert forall|i: int| 0 <= i < script(frame).len() implies #[trigger] script(frame)[i]
        == action_at(frame, i) by {
        if i < 5 {
            assert(script(frame)[i] == before[i]);
        } else if i < 5 + bits.len() {
            assert(script(frame)[i] == bits[i - 5]);
        } else {
            assert(script(frame)[i] == after[i - 5 - bits.len()]);
        }
    }
}

/// Where the four actions that send bit `k` of byte `b` are found by
/// position.
proof fn lemma_bit_found_by_position(frame: Seq<u8>, b: int, k: u8)
    requires
        0 <= b < frame.len(),
        k < 8,
    ensures
        forall|phase: int|
            0 <= phase < 4 ==> #[trigger] action_at(frame, 5 + 32 * b + 4 * k + phase)
                == bit_action(spec_bit_at(frame[b], k), phase),
{
    assert forall|phase: int| 0 <= phase < 4 implies #[trigger] action_at(
        frame,
        5 + 32 * b + 4 * k + phase,
    ) == bit_action(spec_bit_at(frame[b], k), phase) by {
        let j = 32 * b + 4 * k + phase;
        assert(j / 32 == b && j % 32 == 4 * k + phase);
        assert((4 * k + phase) / 4 == k && j % 4 == phase);
        assert(action_at(frame, 5 + j) == bytes_action(frame, j));
    }
}

/// Bits go out in frame order, highest bit of each byte first: bit `k` of
/// byte `b` is signalled by the four actions that start at position
/// `5 + 32 * b + 4 * k` of the script.
pub proof fn lemma_bit_position(frame: Seq<u8>, b: int, k: u8)
    requires
        0 <= b < frame.len(),
        k < 8,
    ensures
        5 + 32 * b + 4 * k + 3 < script(frame).len(),
        script(frame)[5 + 32 * b + 4 * k] == Action::SetLines(
            spec_bit_lines(spec_bit_at(frame[b], k)),
        ),
        script(frame)[5 + 32 * b + 4 * k + 1] == Action::Wait(Delay::Settle),
        script(frame)[5 + 32 * b + 4 * k + 2] == Action::SetLines(spec_standby()),
        script(frame)[5 + 32 * b + 4 * k + 3] == Action::Wait(Delay::Settle),
{
    lemma_script(frame);
    lemma_bit_found_by_position(frame, b, k);
    let first = 5 + 32 * b + 4 * k;
    assert(script(frame)[first] == action_at(frame, first + 0));
    assert(script(frame)[first + 1] == action_at(frame, first + 1));
    assert(script(frame)[first + 2] == action_at(frame, first + 2));
    assert(script(frame)[first + 3] == action_at(frame, first + 3));
}

/// What surrounds the bits: reset, standby and the command delay before
/// them; the command delay and reset after them.
pub proof fn lemma_script_frame(frame: Seq<u8>)
    ensures
        script(frame).len() == 8 + 32 * frame.len(),
        script(frame).take(5) == seq![
            Action::SetLines(spec_reset()),
            Action::Wait(Delay::Settle),
            Action::SetLines(spec_standby()),
            Action::Wait(Delay::Settle),
            Action::Wait(Delay::Command),
        ],
        script(frame).skip(5 + 32 * frame.len() as int) == seq![
            Action::Wait(Delay::Command),
            Action::SetLines(spec_reset()),
            Action::Wait(Delay::Settle),
        ],
{
    lemma_script(frame);
}

/// The `n`-th action of the script of `frame`, counted from zero, or `None`
/// past the end of the script.
pub fn nth_action(frame: &CM17ACommand, n: usize) -> (action: Option<Action>)
    ensures
        action is Some <==> n < script(frame@).len(),
        action matches Some(found) ==> found == script(frame@)[n as int],
{
    proof {
        lemma_script(frame@);
    }
    if n >= SCRIPT_LEN {
        None
    } else if n == 0 {
        Some(Action::SetLines(reset()))
    } else if n == 2 {
        Some(Action::SetLines(standby()))
    } else if n == 4 {
        Some(Action::Wait(Delay::Command))
    } else if n < PREAMBLE_LEN {
        Some(Action::Wait(Delay::Settle))
    } else if n < SCRIPT_LEN - 3 {
        let body: usize = n - PREAMBLE_LEN;
        let phase: usize = body % BIT_LEN;
        if phase == 0 {
            let byte: u8 = frame[body / BYTE_LEN];
            let k: usize = (body % BYTE_LEN) / BIT_LEN;
            Some(Action::SetLines(bit_lines(bit_at(byte, k as u8))))
        } else if phase == 2 {
            Some(Action::SetLines(standby()))
        } else {
            Some(Action::Wait(Delay::Settle))
        }
    } else if n == SCRIPT_LEN - 3 {
        Some(Action::Wait(Delay::Command))
    } else if n == SCRIPT_LEN - 2 {
        Some(Action::SetLines(reset()))
    } else {
        Some(Action::Wait(Delay::Settle))
    }
}

} // verus!
