//! Emulation core of a configurable long-range radio transceiver module
//! that sits between two serial links.
//!
//! - `buffer`: the fixed-capacity byte ring that each direction queues in.
//! - `e32_module`: the module's six-byte parameter record, the speed classes
//!   that its speed byte selects, and the command protocol that writes and
//!   reads the record.
//! - `hex`: the hexadecimal text in which the record is reported.
//! - `timing`: the count of silent timer periods of one direction.
//! - `lane`: a buffer together with its count, which sends a buffered run
//!   on once its side has been silent for long enough.
//! - `framing`: recognition of command frames in a stream of bytes.
//! - `bridge`: the state machine that owns both lanes and the parameter
//!   store; it is handed what the control loop read and says what to do.
//! - `keypad`: the key map of a matrix keypad.
//!
//! The library does no input or output: the program around it reads pins,
//! ports and timers, and carries out what the library decides.

pub mod bridge;
pub mod buffer;
pub mod e32_module;
pub mod framing;
pub mod hex;
pub mod keypad;
pub mod lane;
pub mod timing;
