//! Driver logic for the X10 CM17A "FireCracker" serial dongle.
//!
//! The CM17A has no UART of its own. A command reaches it as a five-byte
//! frame that the host clocks out bit by bit on the RTS and DTR control
//! lines of a serial port. This crate holds the two halves of that job
//! that can be reasoned about without touching hardware:
//!
//! * [`make_command`] turns a house, an optional device and a command into
//!   the five-byte frame;
//! * [`Transmitter`] is the state machine that says, step by step, which
//!   control-line change or pause a driver has to perform next to send a
//!   frame, and when the transmission is over.
//!
//! Performing the steps (the `ioctl` calls and the sleeping) is left to the
//! program that uses the crate.

pub mod codes;
pub mod frame;
pub mod line;
pub mod script;
pub mod transmit;

pub use codes::{Command, Device, HouseCode};
pub use frame::{make_command, CM17ACommand, EncodeError};
pub use line::{bit_at, bit_lines, logical0, logical1, reset, standby, ControlLines};
pub use script::{nth_action, Action, Delay};
pub use transmit::{IoError, Step, Transmitter};
