//! The output side: the choice of the output device by its name, and the
//! reading of the status codes that the device returns.

use vstd::prelude::*;
use crate::error::{BridgeError, PacketError};
use crate::text::{contains, is_substring};

verus! {

/// The status with which the output device reports success.
pub const DEVICE_OK: u32 = 0;

/// The output device chosen for a session.
#[derive(Clone, Copy, Debug, PartialEq, Eq)]
pub struct MidiOutput {
    /// The id under which the host lists the device.
    pub device_id: usize,
}

/// The device at `index` of the list carries `port` in its name.
pub open spec fn names_port(devices: Seq<(usize, String)>, port: Seq<char>, index: int) -> bool {
    0 <= index < devices.len() && is_substring(port, devices[index].1@)
}

/// `index` is the first device of the list that carries `port` in its name.
pub open spec fn is_first_port(devices: Seq<(usize, String)>, port: Seq<char>, index: int) -> bool {
    &&& names_port(devices, port, index)
    &&& forall|k: int| 0 <= k < index ==> !names_port(devices, port, k)
}

impl MidiOutput {
    /// Chooses the output device by name: the first of `devices`, each an
    /// id with its name, whose name contains `target_name`.
    pub fn new_with_device_name(
        devices: &Vec<(usize, String)>,
        target_name: &str,
    ) -> (result: Result<MidiOutput, BridgeError>)
        ensures
            match result {
                Ok(output) => exists|index: int|
                    is_first_port(devices@, target_name@, index) && output.device_id
                        == devices@[index].0,
                Err(e) => {
                    &&& e == BridgeError::MidiPortNotFound
                    &&& forall|k: int| !names_port(devices@, target_name@, k)
                },
            },
    {
        let mut index: usize = 0;
        while index < devices.len()
            invariant
                index <= devices.len(),
                forall|k: int| 0 <= k < index ==> !names_port(devices@, target_name@, k),
            decreases devices.len() - index,
        {
            let device = &devices[index];
            if contains(device.1.as_str(), target_name) {
                assert(is_first_port(devices@, target_name@, index as int));
                return Ok(MidiOutput { device_id: device.0 });
            }
            index += 1;
        }
        Err(BridgeError::MidiPortNotFound)
    }

    /// Reads the status that the host returned on opening the chosen
    /// device. A device that was found by its name and cannot be opened is
    /// a failure of the transport, and the error carries the status.
    pub fn open_result(code: u32) -> (result: Result<(), BridgeError>)
        ensures
            result == opened(code),
            result is Ok <==> code == DEVICE_OK,
            code != DEVICE_OK ==> result == Err::<(), BridgeError>(
                BridgeError::TransportError { code: Some(code) },
            ),
    {
        if code == DEVICE_OK {
            Ok(())
        } else {
            Err(BridgeError::TransportError { code: Some(code) })
        }
    }

    /// Reads the status that the device returned for one message.
    pub fn send_result(code: u32) -> (result: Result<(), PacketError>)
        ensures
            result == sent(code),
            result is Ok <==> code == DEVICE_OK,
    {
        if code == DEVICE_OK {
            Ok(())
        } else {
            Err(PacketError::TransportError { code })
        }
    }
}

/// What a device status means for the opening of the device: success for
/// zero, else a transport error with the status.
pub open spec fn opened(code: u32) -> Result<(), BridgeError> {
    if code == DEVICE_OK {
        Ok(())
    } else {
        Err(BridgeError::TransportError { code: Some(code) })
    }
}

/// What a device status means for the message that was sent: success for
/// zero, else a transport error with the status.
pub open spec fn sent(code: u32) -> Result<(), PacketError> {
    if code == DEVICE_OK {
        Ok(())
    } else {
        Err(PacketError::TransportError { code })
    }
}

} // verus!
