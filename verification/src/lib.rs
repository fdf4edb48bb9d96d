//! Driver core for a motorized stage speaking the Thorlabs APT binary
//! protocol over a serial link: frame encoding, status decoding, and the
//! polling state machines that wait for homing and move completion.
//!
//! Byte I/O itself (the serial port) is left to the caller; everything here
//! works on plain byte vectors and integer status words.
use vstd::prelude::*;

pub mod codec;
pub mod motion;

verus! {

/// What can go wrong while driving the device.
#[derive(Clone, Copy, Debug, PartialEq, Eq, Structural)]
pub enum DeviceError {
    /// A write or read on the byte channel did not complete.
    Transport,
    /// A wait state machine exhausted its poll budget.
    Timeout,
    /// A status reply did not have the fixed 12-byte layout.
    Protocol,
}

impl DeviceError {
    /// A short human-readable description of the error.
    pub fn describe(&self) -> (r: &'static str)
        ensures
            *self is Transport ==> r@ == "transport failure"@,
            *self is Timeout ==> r@ == "movement timeout"@,
            *self is Protocol ==> r@ == "malformed status reply"@,
    {
        match self {
            DeviceError::Transport => "transport failure",
            DeviceError::Timeout => "movement timeout",
            DeviceError::Protocol => "malformed status reply",
        }
    }
}

} // verus!
