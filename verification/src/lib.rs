//! Sans-I/O core of a bridge from a BLE-MIDI keyboard to a local MIDI output.
//!
//! The crate holds the decisions of a bridge session: the MIDI message model,
//! the BLE-MIDI packet decoder, note transposition, the search for the
//! BLE-MIDI characteristic and for the output port, and the state machines
//! of device discovery and of the session's event loop. A driver performs
//! the wireless and device I/O and feeds the results back in.

pub mod ble;
pub mod bridge;
pub mod discovery;
pub mod error;
pub mod midi;
pub mod output;
pub mod packet;
pub mod text;

pub use bridge::{BleMidiBridge, Config};
pub use error::{BridgeError, PacketError};
pub use midi::{MessageKind, MidiMessage};
