//! The failures of a bridge session.

use vstd::prelude::*;

verus! {

/// Why the processing of one notification payload failed.
#[derive(Clone, Copy, Debug, PartialEq, Eq, Structural)]
pub enum PacketError {
    /// The payload has fewer than the two bytes of BLE-MIDI framing.
    PacketTooShort,
    /// The output device refused the message; `code` is its non-zero status.
    TransportError { code: u32 },
}

/// Why a session ended, or never started.
#[derive(Clone, Copy, Debug, PartialEq, Eq, Structural)]
pub enum BridgeError {
    /// The host has no Bluetooth adapter.
    NoAdapter,
    /// No target peripheral was seen before the scan timed out.
    DeviceNotFound { timeout_secs: u128 },
    /// No output device carries the configured port name in its name.
    MidiPortNotFound,
    /// The peripheral does not offer the BLE-MIDI service.
    ServiceNotFound,
    /// The wanted characteristic is not among the discovered ones.
    CharacteristicNotFound,
    /// An operation on the wireless link or on the output device failed.
    /// `code` is the status of the output device where it was the one that
    /// failed, and `None` for a failure of the wireless link.
    TransportError { code: Option<u32> },
    /// More than the tolerated number of packets failed in a row; `last` is
    /// the failure of the final one.
    TooManyConsecutiveErrors { last: PacketError },
    /// The periodic liveness check found the peripheral gone.
    UnexpectedDisconnect,
}

} // verus!
