//! The wireless side: the discovered services of a peripheral, the search
//! for a characteristic, and the state machine of device discovery.
//!
//! Nothing here touches a radio. A driver performs each action that the
//! discovery asks for and reports what came of it.

use vstd::prelude::*;
use crate::error::BridgeError;
use crate::text::{contains, is_substring};

verus! {

/// The UUID of the BLE-MIDI data characteristic,
/// 7772E5DB-3868-4112-A1A9-F2669D106BF3, as a 128-bit number.
pub const BLE_MIDI_CHARACTERISTIC_UUID: u128 = 0x7772E5DB_3868_4112_A1A9_F2669D106BF3;

/// The UUID of the BLE-MIDI service,
/// 03B80E5A-EDE8-4B33-A751-6CE34EC4C700, as a 128-bit number.
pub const BLE_MIDI_SERVICE_UUID: u128 = 0x03B80E5A_EDE8_4B33_A751_6CE34EC4C700;

/// The pause between two looks at the visible peripherals, in milliseconds.
pub const SCAN_POLL_INTERVAL_MILLIS: u64 = 1000;

/// The nanoseconds in one second.
pub const NANOS_PER_SEC: u128 = 1_000_000_000;

/// One characteristic of a discovered service.
#[derive(Clone, Copy, Debug, PartialEq, Eq)]
pub struct Characteristic {
    pub uuid: u128,
    /// The property bits that the peripheral announced for it.
    pub properties: u8,
}

/// One discovered service with its characteristics in discovery order.
#[derive(Clone, Debug, PartialEq, Eq)]
pub struct Service {
    pub uuid: u128,
    pub characteristics: Vec<Characteristic>,
}

/// Where a characteristic stands among the discovered ones.
#[derive(Clone, Copy, Debug, PartialEq, Eq)]
pub struct CharacteristicRef {
    /// The index of its service.
    pub service: usize,
    /// Its index among the characteristics of that service.
    pub characteristic: usize,
}

/// A connected peripheral, as far as the bridge reads it: its services.
#[derive(Clone, Debug, PartialEq, Eq)]
pub struct BleDevice {
    pub services: Vec<Service>,
}

/// The characteristic at (`service`, `characteristic`) exists and has `uuid`.
pub open spec fn has_uuid_at(
    services: Seq<Service>,
    uuid: u128,
    service: int,
    characteristic: int,
) -> bool {
    &&& 0 <= service < services.len()
    &&& 0 <= characteristic < services[service].characteristics@.len()
    &&& services[service].characteristics@[characteristic].uuid == uuid
}

/// Position (`s1`, `c1`) comes before (`s2`, `c2`) in discovery order.
pub open spec fn comes_before(s1: int, c1: int, s2: int, c2: int) -> bool {
    s1 < s2 || (s1 == s2 && c1 < c2)
}

/// The service at `index` exists and has `uuid`.
pub open spec fn service_has_uuid(services: Seq<Service>, uuid: u128, index: int) -> bool {
    0 <= index < services.len() && services[index].uuid == uuid
}

/// Some service has `uuid`.
pub open spec fn has_service(services: Seq<Service>, uuid: u128) -> bool {
    exists|index: int| service_has_uuid(services, uuid, index)
}

/// `index` is the first service with `uuid`.
pub open spec fn is_first_service(services: Seq<Service>, uuid: u128, index: int) -> bool {
    &&& service_has_uuid(services, uuid, index)
    &&& forall|k: int| 0 <= k < index ==> !service_has_uuid(services, uuid, k)
}

/// `index` is the first characteristic of `service` with `uuid`.
pub open spec fn is_first_in_service(service: Service, uuid: u128, index: int) -> bool {
    &&& 0 <= index < service.characteristics@.len()
    &&& service.characteristics@[index].uuid == uuid
    &&& forall|k: int| 0 <= k < index ==> service.characteristics@[k].uuid != uuid
}

/// `result` is what resolving `characteristic_uuid` under `service_uuid`
/// gives: the first such characteristic of the first such service; an error
/// for the service where no service has its UUID; an error for the
/// characteristic where the first such service does not hold it.
pub open spec fn resolves_to(
    services: Seq<Service>,
    service_uuid: u128,
    characteristic_uuid: u128,
    result: Result<CharacteristicRef, BridgeError>,
) -> bool {
    match result {
        Ok(at) => {
            &&& is_first_service(services, service_uuid, at.service as int)
            &&& is_first_in_service(
                services[at.service as int],
                characteristic_uuid,
                at.characteristic as int,
            )
        },
        Err(e) => {
            if has_service(services, service_uuid) {
                &&& e == BridgeError::CharacteristicNotFound
                &&& forall|s: int, k: int|
                    is_first_service(services, service_uuid, s) && 0 <= k
                        < services[s].characteristics@.len()
                        ==> services[s].characteristics@[k].uuid != characteristic_uuid
            } else {
                e == BridgeError::ServiceNotFound
            }
        },
    }
}

/// The device name marks a peripheral that the bridge is made for.
pub open spec fn is_target_name(name: Seq<char>) -> bool {
    is_substring("LPK25"@, name) || is_substring("AKAI"@, name)
}

/// The entry is a name, and that of a target.
pub open spec fn names_target(entry: Option<String>) -> bool {
    entry matches Some(name) && is_target_name(name@)
}

/// The index of the first entry that names a target, if there is one.
pub open spec fn first_target(names: Seq<Option<String>>) -> Option<usize>
    decreases names.len(),
{
    if names.len() == 0 {
        None
    } else {
        match first_target(names.drop_last()) {
            Some(index) => Some(index),
            None => if names_target(names.last()) {
                Some((names.len() - 1) as usize)
            } else {
                None
            },
        }
    }
}

/// `first_target` gives the least index whose entry names a target, and
/// nothing exactly where no entry does.
pub proof fn lemma_first_target(names: Seq<Option<String>>)
    requires
        names.len() <= usize::MAX,
    ensures
        first_target(names) matches Some(index) ==> index < names.len() && names_target(
            names[index as int],
        ) && forall|k: int| 0 <= k < index ==> !names_target(names[k]),
        first_target(names) is None ==> forall|k: int|
            0 <= k < names.len() ==> !names_target(names[k]),
    decreases names.len(),
{
    if names.len() > 0 {
        let front = names.drop_last();
        lemma_first_target(front);
        match first_target(front) {
            Some(index) => {
                assert forall|k: int| 0 <= k < index implies !names_target(names[k]) by {
                    assert(names[k] == front[k]);
                }
            },
            None => {
                assert forall|k: int| 0 <= k < names.len() - 1 implies !names_target(
                    names[k],
                ) by {
                    assert(names[k] == front[k]);
                }
            },
        }
    }
}

/// Whether a device name marks a target: it contains `LPK25` or `AKAI`.
pub fn is_target(name: &str) -> (target: bool)
    ensures
        target == is_target_name(name@),
{
    contains(name, "LPK25") || contains(name, "AKAI")
}

/// Finds the first peripheral with the name of a target. An entry is `None`
/// where the peripheral gave no name.
pub fn find_target(names: &Vec<Option<String>>) -> (found: Option<usize>)
    ensures
        found == first_target(names@),
        match found {
            Some(index) => {
                &&& index < names@.len()
                &&& names_target(names@[index as int])
                &&& forall|k: int| 0 <= k < index ==> !names_target(names@[k])
            },
            None => forall|k: int| 0 <= k < names@.len() ==> !names_target(names@[k]),
        },
{
    let mut index: usize = 0;
    while index < names.len()
        invariant
            index <= names.len(),
            first_target(names@.take(index as int)) is None,
        decreases names.len() - index,
    {
        assert(names@.take(index + 1).drop_last() =~= names@.take(index as int));
        let target = match &names[index] {
            Some(name) => is_target(name.as_str()),
            None => false,
        };
        if target {
            proof {
                lemma_target_found(names@, index as int);
                lemma_first_target(names@);
            }
            return Some(index);
        }
        index += 1;
    }
    proof {
        assert(names@.take(index as int) =~= names@);
        lemma_first_target(names@);
    }
    None
}

/// Once a prefix holds its first target, every longer list has the same.
proof fn lemma_target_found(names: Seq<Option<String>>, index: int)
    requires
        0 <= index < names.len() <= usize::MAX,
        first_target(names.take(index)) is None,
        names_target(names[index]),
    ensures
        first_target(names) == Some(index as usize),
    decreases names.len(),
{
    if index < names.len() - 1 {
        let front = names.drop_last();
        assert(front.take(index) =~= names.take(index));
        lemma_target_found(front, index);
    }
}

impl BleDevice {
    /// Finds a characteristic by its UUID: the first one in discovery
    /// order, through all services.
    pub fn get_characteristic(&self, uuid: u128) -> (result: Result<
        CharacteristicRef,
        BridgeError,
    >)
        ensures
            match result {
                Ok(at) => {
                    &&& has_uuid_at(
                        self.services@,
                        uuid,
                        at.service as int,
                        at.characteristic as int,
                    )
                    &&& forall|s: int, c: int|
                        has_uuid_at(self.services@, uuid, s, c) ==> !comes_before(
                            s,
                            c,
                            at.service as int,
                            at.characteristic as int,
                        )
                },
                Err(e) => {
                    &&& e == BridgeError::CharacteristicNotFound
                    &&& forall|s: int, c: int| !has_uuid_at(self.services@, uuid, s, c)
                },
            },
    {
        let mut s: usize = 0;
        while s < self.services.len()
            invariant
                s <= self.services.len(),
                forall|i: int, c: int| 0 <= i < s ==> !has_uuid_at(self.services@, uuid, i, c),
            decreases self.services.len() - s,
        {
            let service = &self.services[s];
            let mut c: usize = 0;
            while c < service.characteristics.len()
                invariant
                    s < self.services.len(),
                    *service == self.services@[s as int],
                    c <= service.characteristics.len(),
                    forall|i: int, k: int|
                        0 <= i < s ==> !has_uuid_at(self.services@, uuid, i, k),
                    forall|k: int| 0 <= k < c ==> !has_uuid_at(self.services@, uuid, s as int, k),
                decreases service.characteristics.len() - c,
            {
                if service.characteristics[c].uuid == uuid {
                    return Ok(CharacteristicRef { service: s, characteristic: c });
                }
                c += 1;
            }
            s += 1;
        }
        Err(BridgeError::CharacteristicNotFound)
    }

    /// Finds the first service with the given UUID.
    pub fn find_service(&self, uuid: u128) -> (found: Option<usize>)
        ensures
            match found {
                Some(index) => is_first_service(self.services@, uuid, index as int),
                None => forall|k: int| !service_has_uuid(self.services@, uuid, k),
            },
    {
        let mut s: usize = 0;
        while s < self.services.len()
            invariant
                s <= self.services.len(),
                forall|k: int| 0 <= k < s ==> !service_has_uuid(self.services@, uuid, k),
            decreases self.services.len() - s,
        {
            if self.services[s].uuid == uuid {
                return Some(s);
            }
            s += 1;
        }
        None
    }

    /// Resolves a characteristic through its service: the first service with
    /// `service_uuid`, and in it the first characteristic with
    /// `characteristic_uuid`. Later services with the same UUID are not
    /// searched.
    pub fn resolve(&self, service_uuid: u128, characteristic_uuid: u128) -> (result: Result<
        CharacteristicRef,
        BridgeError,
    >)
        ensures
            resolves_to(self.services@, service_uuid, characteristic_uuid, result),
    {
        let s = match self.find_service(service_uuid) {
            Some(s) => s,
            None => {
                return Err(BridgeError::ServiceNotFound);
            },
        };
        let service = &self.services[s];
        let mut c: usize = 0;
        while c < service.characteristics.len()
            invariant
                is_first_service(self.services@, service_uuid, s as int),
                *service == self.services@[s as int],
                c <= service.characteristics.len(),
                forall|k: int|
                    0 <= k < c ==> service.characteristics@[k].uuid != characteristic_uuid,
            decreases service.characteristics.len() - c,
        {
            if service.characteristics[c].uuid == characteristic_uuid {
                return Ok(CharacteristicRef { service: s, characteristic: c });
            }
            c += 1;
        }
        Err(BridgeError::CharacteristicNotFound)
    }
}

} // verus!
