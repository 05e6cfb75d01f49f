use blip::ble::{
    find_target, is_target, BleDevice, Characteristic, CharacteristicRef, Service,
    BLE_MIDI_CHARACTERISTIC_UUID, BLE_MIDI_SERVICE_UUID,
};
use blip::discovery::{Discovery, DiscoveryAction, DiscoveryEvent, DiscoveryStage};
use blip::error::{BridgeError, PacketError};
use blip::output::MidiOutput;
use blip::text::contains;
use uuid::Uuid;

fn plain(uuid: u128) -> Characteristic {
    Characteristic { uuid, properties: 0 }
}

fn names(list: &[Option<&str>]) -> Vec<Option<String>> {
    list.iter().map(|entry| entry.map(|name| name.to_string())).collect()
}

fn scanning(timeout_nanos: u128) -> Discovery {
    let mut discovery = BleDevice::discover(timeout_nanos);
    assert_eq!(discovery.step(&DiscoveryEvent::Adapters { count: 1 }), DiscoveryAction::StartScan);
    assert_eq!(discovery.step(&DiscoveryEvent::Completed), DiscoveryAction::ReadClock);
    discovery
}

#[test]
fn test_ble_uuids() {
    // Test that our UUIDs are correctly defined
    assert_eq!(
        Uuid::from_u128(BLE_MIDI_SERVICE_UUID),
        Uuid::from_u128(0x03B80E5A_EDE8_4B33_A751_6CE34EC4C700)
    );
    assert_eq!(
        Uuid::from_u128(BLE_MIDI_CHARACTERISTIC_UUID),
        Uuid::from_u128(0x7772E5DB_3868_4112_A1A9_F2669D106BF3)
    );
}

#[test]
fn uuids_read_as_their_text() {
    assert_eq!(
        Uuid::parse_str("03B80E5A-EDE8-4B33-A751-6CE34EC4C700").unwrap().as_u128(),
        BLE_MIDI_SERVICE_UUID
    );
    assert_eq!(
        Uuid::parse_str("7772E5DB-3868-4112-A1A9-F2669D106BF3").unwrap().as_u128(),
        BLE_MIDI_CHARACTERISTIC_UUID
    );
}

#[test]
fn contains_finds_a_substring_anywhere() {
    assert!(contains("AKAI LPK25", "AKAI"));
    assert!(contains("AKAI LPK25", "LPK25"));
    assert!(contains("AKAI LPK25", "I L"));
    assert!(contains("AKAI LPK25", "AKAI LPK25"));
    assert!(contains("AKAI LPK25", ""));
    assert!(contains("", ""));
    assert!(!contains("", "A"));
    assert!(!contains("AKAI", "AKAI "));
    assert!(!contains("AKAI LPK25", "akai"));
    assert!(!contains("AKA", "AKAI"));
    assert!(!contains("AAKA", "AKAI"));
    assert!(contains("AAKAI", "AKAI"));
    assert!(contains("naïve café", "é"));
    assert!(contains("naïve café", "ve c"));
    assert!(!contains("naive cafe", "é"));
}

#[test]
fn contains_agrees_with_std() {
    let texts = ["", "a", "ab", "aab", "abab", "LPK25", "xLPK2", "AKAI LPK25 Wireless", "ééa"];
    for hay in texts {
        for needle in texts {
            assert_eq!(contains(hay, needle), hay.contains(needle));
        }
    }
}

#[test]
fn target_names() {
    assert!(is_target("AKAI LPK25"));
    assert!(is_target("LPK25 Wireless"));
    assert!(is_target("My AKAI"));
    assert!(is_target("xxLPK25xx"));
    assert!(!is_target("LPK 25"));
    assert!(!is_target("akai lpk25"));
    assert!(!is_target(""));
    assert!(!is_target("Keyboard"));
}

#[test]
fn find_target_takes_the_first_named_target() {
    assert_eq!(find_target(&names(&[])), None);
    assert_eq!(find_target(&names(&[None, Some("Phone"), None])), None);
    assert_eq!(find_target(&names(&[None, Some("Phone"), Some("AKAI LPK25")])), Some(2));
    assert_eq!(find_target(&names(&[Some("LPK25"), Some("AKAI")])), Some(0));
    assert_eq!(find_target(&names(&[Some("TV"), Some("My AKAI"), Some("LPK25")])), Some(1));
}

#[test]
fn get_characteristic_takes_the_first_match_through_all_services() {
    let device = BleDevice {
        services: vec![
            Service { uuid: 1, characteristics: vec![] },
            Service { uuid: 2, characteristics: vec![plain(10), plain(11)] },
            Service { uuid: 3, characteristics: vec![plain(11), plain(12), plain(11)] },
        ],
    };
    assert_eq!(
        device.get_characteristic(10),
        Ok(CharacteristicRef { service: 1, characteristic: 0 })
    );
    assert_eq!(
        device.get_characteristic(11),
        Ok(CharacteristicRef { service: 1, characteristic: 1 })
    );
    assert_eq!(
        device.get_characteristic(12),
        Ok(CharacteristicRef { service: 2, characteristic: 1 })
    );
    assert_eq!(device.get_characteristic(13), Err(BridgeError::CharacteristicNotFound));
    assert_eq!(device.get_characteristic(2), Err(BridgeError::CharacteristicNotFound));
}

#[test]
fn get_characteristic_on_a_device_without_services() {
    let device = BleDevice { services: vec![] };
    assert_eq!(
        device.get_characteristic(BLE_MIDI_CHARACTERISTIC_UUID),
        Err(BridgeError::CharacteristicNotFound)
    );
    assert_eq!(device.find_service(BLE_MIDI_SERVICE_UUID), None);
    assert_eq!(device.resolve(1, 2), Err(BridgeError::ServiceNotFound));
}

#[test]
fn resolve_searches_the_first_matching_service_only() {
    let device = BleDevice {
        services: vec![
            Service { uuid: 1, characteristics: vec![plain(30)] },
            Service { uuid: 2, characteristics: vec![plain(10), plain(30), plain(30)] },
            Service { uuid: 2, characteristics: vec![plain(20)] },
        ],
    };
    assert_eq!(device.find_service(2), Some(1));
    assert_eq!(device.find_service(5), None);
    assert_eq!(device.resolve(2, 30), Ok(CharacteristicRef { service: 1, characteristic: 1 }));
    assert_eq!(device.resolve(1, 30), Ok(CharacteristicRef { service: 0, characteristic: 0 }));
    assert_eq!(device.resolve(2, 20), Err(BridgeError::CharacteristicNotFound));
    assert_eq!(device.resolve(4, 20), Err(BridgeError::ServiceNotFound));
    assert_eq!(device.get_characteristic(20), Ok(CharacteristicRef { service: 2, characteristic: 0 }));
}

#[test]
fn discovery_without_an_adapter_fails_at_once() {
    let mut discovery = BleDevice::discover(30_000_000_000);
    assert_eq!(discovery.action(), DiscoveryAction::ListAdapters);
    assert!(!discovery.is_finished());
    let action = discovery.step(&DiscoveryEvent::Adapters { count: 0 });
    assert_eq!(action, DiscoveryAction::Fail { error: BridgeError::NoAdapter });
    assert!(discovery.is_finished());
    assert_eq!(discovery.stage, DiscoveryStage::Failed { error: BridgeError::NoAdapter });
}

#[test]
fn discovery_finds_the_target_and_connects() {
    let mut discovery = scanning(30_000_000_000);
    assert_eq!(discovery.step(&DiscoveryEvent::Elapsed { nanos: 0 }), DiscoveryAction::ListPeripherals);
    let seen = DiscoveryEvent::Peripherals { names: names(&[Some("TV"), None]) };
    assert_eq!(discovery.step(&seen), DiscoveryAction::Sleep { millis: 1000 });
    assert_eq!(discovery.step(&DiscoveryEvent::Completed), DiscoveryAction::ReadClock);
    assert_eq!(
        discovery.step(&DiscoveryEvent::Elapsed { nanos: 1_000_300_000 }),
        DiscoveryAction::ListPeripherals
    );
    let seen = DiscoveryEvent::Peripherals { names: names(&[Some("TV"), None, Some("AKAI LPK25")]) };
    assert_eq!(discovery.step(&seen), DiscoveryAction::StopScan);
    assert_eq!(discovery.stage, DiscoveryStage::StoppingScan { found: Some(2) });
    assert_eq!(discovery.step(&DiscoveryEvent::Completed), DiscoveryAction::Connect { index: 2 });
    assert_eq!(
        discovery.step(&DiscoveryEvent::Completed),
        DiscoveryAction::DiscoverServices { index: 2 }
    );
    assert!(!discovery.is_finished());
    assert_eq!(discovery.step(&DiscoveryEvent::Completed), DiscoveryAction::Finish { index: 2 });
    assert!(discovery.is_finished());
    assert_eq!(discovery.step(&DiscoveryEvent::Failed), DiscoveryAction::Finish { index: 2 });
    assert_eq!(discovery.timeout_nanos, 30_000_000_000);
}

#[test]
fn discovery_times_out_with_the_timeout_in_seconds() {
    let mut discovery = scanning(30_000_000_000);
    assert_eq!(
        discovery.step(&DiscoveryEvent::Elapsed { nanos: 29_999_999_999 }),
        DiscoveryAction::ListPeripherals
    );
    let seen = DiscoveryEvent::Peripherals { names: names(&[Some("TV")]) };
    assert_eq!(discovery.step(&seen), DiscoveryAction::Sleep { millis: 1000 });
    assert_eq!(discovery.step(&DiscoveryEvent::Completed), DiscoveryAction::ReadClock);
    assert_eq!(
        discovery.step(&DiscoveryEvent::Elapsed { nanos: 30_000_000_000 }),
        DiscoveryAction::StopScan
    );
    assert_eq!(
        discovery.step(&DiscoveryEvent::Completed),
        DiscoveryAction::Fail { error: BridgeError::DeviceNotFound { timeout_secs: 30 } }
    );
    assert!(discovery.is_finished());
}

#[test]
fn discovery_with_a_zero_timeout_never_polls() {
    let mut discovery = scanning(0);
    assert_eq!(discovery.step(&DiscoveryEvent::Elapsed { nanos: 0 }), DiscoveryAction::StopScan);
    assert_eq!(
        discovery.step(&DiscoveryEvent::Completed),
        DiscoveryAction::Fail { error: BridgeError::DeviceNotFound { timeout_secs: 0 } }
    );
}

#[test]
fn discovery_reports_whole_seconds() {
    let mut discovery = scanning(2_999_999_999);
    assert_eq!(
        discovery.step(&DiscoveryEvent::Elapsed { nanos: 3_000_000_000 }),
        DiscoveryAction::StopScan
    );
    assert_eq!(
        discovery.step(&DiscoveryEvent::Completed),
        DiscoveryAction::Fail { error: BridgeError::DeviceNotFound { timeout_secs: 2 } }
    );
}

#[test]
fn a_transport_failure_ends_the_discovery_at_any_stage() {
    let fail = DiscoveryAction::Fail { error: BridgeError::TransportError { code: None } };

    let mut discovery = BleDevice::discover(1);
    assert_eq!(discovery.step(&DiscoveryEvent::Failed), fail);

    let mut discovery = scanning(5_000_000_000);
    assert_eq!(discovery.step(&DiscoveryEvent::Failed), fail);

    let mut discovery = scanning(5_000_000_000);
    discovery.step(&DiscoveryEvent::Elapsed { nanos: 1 });
    discovery.step(&DiscoveryEvent::Peripherals { names: names(&[Some("AKAI")]) });
    assert_eq!(discovery.step(&DiscoveryEvent::Completed), DiscoveryAction::Connect { index: 0 });
    assert_eq!(discovery.step(&DiscoveryEvent::Failed), fail);
    assert_eq!(discovery.step(&DiscoveryEvent::Completed), fail);

    let mut discovery = scanning(5_000_000_000);
    assert_eq!(discovery.step(&DiscoveryEvent::Elapsed { nanos: 5_000_000_001 }), DiscoveryAction::StopScan);
    assert_eq!(discovery.step(&DiscoveryEvent::Failed), fail);
}

#[test]
fn an_event_that_the_stage_does_not_wait_for_is_passed_over() {
    let mut discovery = BleDevice::discover(1_000);
    assert_eq!(discovery.step(&DiscoveryEvent::Completed), DiscoveryAction::ListAdapters);
    assert_eq!(discovery.step(&DiscoveryEvent::Elapsed { nanos: 5_000 }), DiscoveryAction::ListAdapters);
    let seen = DiscoveryEvent::Peripherals { names: names(&[Some("AKAI")]) };
    assert_eq!(discovery.step(&seen), DiscoveryAction::ListAdapters);
    assert_eq!(discovery.step(&DiscoveryEvent::Adapters { count: 2 }), DiscoveryAction::StartScan);
    assert_eq!(discovery.step(&DiscoveryEvent::Adapters { count: 0 }), DiscoveryAction::StartScan);
    assert_eq!(discovery.stage, DiscoveryStage::StartingScan);
}

#[test]
fn output_is_chosen_by_name() {
    let devices = vec![
        (4usize, "Microsoft GS Wavetable Synth".to_string()),
        (7usize, "AKAI_LPK25_IN_BLE 2".to_string()),
        (9usize, "AKAI_LPK25_IN_BLE".to_string()),
    ];
    assert_eq!(
        MidiOutput::new_with_device_name(&devices, "AKAI_LPK25_IN_BLE"),
        Ok(MidiOutput { device_id: 7 })
    );
    assert_eq!(MidiOutput::new_with_device_name(&devices, "Synth"), Ok(MidiOutput { device_id: 4 }));
    assert_eq!(MidiOutput::new_with_device_name(&devices, ""), Ok(MidiOutput { device_id: 4 }));
    assert_eq!(
        MidiOutput::new_with_device_name(&devices, "loopMIDI"),
        Err(BridgeError::MidiPortNotFound)
    );
    assert_eq!(
        MidiOutput::new_with_device_name(&Vec::new(), ""),
        Err(BridgeError::MidiPortNotFound)
    );
}

#[test]
fn device_status_codes() {
    assert_eq!(MidiOutput::open_result(0), Ok(()));
    assert_eq!(
        MidiOutput::open_result(4),
        Err(BridgeError::TransportError { code: Some(4) })
    );
    assert_eq!(MidiOutput::send_result(0), Ok(()));
    assert_eq!(MidiOutput::send_result(1), Err(PacketError::TransportError { code: 1 }));
    assert_eq!(
        MidiOutput::send_result(u32::MAX),
        Err(PacketError::TransportError { code: u32::MAX })
    );
}

#[test]
fn a_failed_open_is_a_transport_error_with_the_status() {
    for code in [1u32, 2, 4, 6, 0xFFFF, u32::MAX] {
        let result = MidiOutput::open_result(code);
        assert_eq!(result, Err(BridgeError::TransportError { code: Some(code) }));
        assert_ne!(result, Err(BridgeError::MidiPortNotFound));
    }
    assert_ne!(MidiOutput::open_result(1), MidiOutput::open_result(2));
}

#[test]
fn a_device_found_by_name_that_does_not_open_is_not_a_missing_port() {
    let devices = vec![(3usize, "AKAI_LPK25_IN_BLE".to_string())];
    let chosen = MidiOutput::new_with_device_name(&devices, "AKAI_LPK25_IN_BLE");
    assert_eq!(chosen, Ok(MidiOutput { device_id: 3 }));
    assert_eq!(
        MidiOutput::open_result(4),
        Err(BridgeError::TransportError { code: Some(4) })
    );
    let missing = MidiOutput::new_with_device_name(&devices, "OTHER_PORT");
    assert_eq!(missing, Err(BridgeError::MidiPortNotFound));
}
