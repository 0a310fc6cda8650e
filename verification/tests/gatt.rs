use ble_session::callbacks::ServiceDiscoveredCall;
use ble_session::callbacks::ValueChangedCall;
use ble_session::error::{GattStatus, SessionError};
use ble_session::gatt::{
    canonical, characteristic_found, characteristics_listed, disable_notification, discover_services,
    enable_notification, find_characteristic, format_uuid, handle_value_changed, is_telemetry,
    notification_configured, notification_disabled, notification_enabled, read_characteristic,
    read_completed, service_found, services_listed, subscription_for, telemetry_subscribed,
    unsubscription_for, value_read, write_characteristic, write_started, Guid, Subscription,
    Unsubscription, WritePlan, TELEMETRY_UUID,
};
use ble_session::state::PluginState;

const BATTERY: &str = "00002a19-0000-1000-8000-00805f9b34fb";

fn wide(s: &str) -> Vec<u16> {
    let mut v: Vec<u16> = s.encode_utf16().collect();
    v.push(0);
    v
}

fn telemetry_id() -> Guid {
    Guid {
        data1: 0x86602102,
        data2: 0x6b7e,
        data3: 0x439a,
        data4: [0xbd, 0xd1, 0x48, 0x9a, 0x32, 0x13, 0xe9, 0xbb],
    }
}

fn battery_id() -> Guid {
    Guid {
        data1: 0x00002a19,
        data2: 0x0000,
        data3: 0x1000,
        data4: [0x80, 0x00, 0x00, 0x80, 0x5f, 0x9b, 0x34, 0xfb],
    }
}

fn with_battery() -> PluginState {
    let mut state = PluginState::new();
    state.device = Some(11);
    state.is_connected = true;
    characteristic_found(&mut state, None, &battery_id(), 13);
    state
}

#[test]
fn format_uuid_writes_the_canonical_text() {
    assert_eq!(format_uuid(&telemetry_id()), "86602102-6b7e-439a-bdd1-489a3213e9bb");
    assert_eq!(format_uuid(&battery_id()), BATTERY);
}

#[test]
fn format_uuid_pads_each_group() {
    let zero = Guid { data1: 0, data2: 0, data3: 0, data4: [0; 8] };
    assert_eq!(format_uuid(&zero), "00000000-0000-0000-0000-000000000000");
    let ones = Guid { data1: 1, data2: 2, data3: 3, data4: [4, 5, 6, 7, 8, 9, 10, 11] };
    assert_eq!(format_uuid(&ones), "00000001-0002-0003-0405-060708090a0b");
    let full = Guid { data1: u32::MAX, data2: u16::MAX, data3: u16::MAX, data4: [0xff; 8] };
    assert_eq!(format_uuid(&full), "ffffffff-ffff-ffff-ffff-ffffffffffff");
}

#[test]
fn the_telemetry_identifier() {
    assert_eq!(TELEMETRY_UUID, "86602102-6b7e-439a-bdd1-489a3213e9bb");
    assert!(is_telemetry("86602102-6b7e-439a-bdd1-489a3213e9bb"));
    assert!(!is_telemetry("86602102-6B7E-439A-BDD1-489A3213E9BB"));
    assert!(!is_telemetry(BATTERY));
    assert!(!is_telemetry(""));
}

#[test]
fn discovery_needs_a_device() {
    let mut state = PluginState::new();
    assert_eq!(discover_services(&state), Err(SessionError::NotConnected));
    state.device = Some(11);
    assert_eq!(discover_services(&state), Ok(11));
}

#[test]
fn discovery_goes_by_the_device_not_the_flag() {
    let mut state = PluginState::new();
    state.is_connected = true;
    assert_eq!(discover_services(&state), Err(SessionError::NotConnected));
}

const NOT_SUCCESS: [GattStatus; 4] = [
    GattStatus::Unreachable,
    GattStatus::ProtocolError,
    GattStatus::AccessDenied,
    GattStatus::Other,
];

#[test]
fn a_listing_of_services_without_success_ends_the_discovery() {
    assert_eq!(services_listed(Ok(GattStatus::Success)), Ok(()));
    for status in NOT_SUCCESS {
        assert_eq!(services_listed(Ok(status)), Err(SessionError::ServiceQueryFailed));
    }
    assert_eq!(services_listed(Err(-7)), Err(SessionError::Transport(-7)));
}

#[test]
fn a_discovered_service_is_recorded_and_reported() {
    let mut state = PluginState::new();
    let call = service_found(&mut state, Some(4), &battery_id(), 12);
    assert_eq!(
        call,
        Some(ServiceDiscoveredCall { handler: 4, service_type: 0, uuid: wide(BATTERY), uuid_len: 36 })
    );
    assert_eq!(state.services.get(BATTERY), Some(&12));
    assert!(state.characteristics.is_empty());
}

#[test]
fn a_service_found_again_replaces_its_handle() {
    let mut state = PluginState::new();
    service_found(&mut state, None, &battery_id(), 12);
    assert_eq!(service_found(&mut state, None, &battery_id(), 22), None);
    assert_eq!(state.services.len(), 1);
    assert_eq!(state.services.get(BATTERY), Some(&22));
}

#[test]
fn a_listing_of_characteristics_without_success_skips_the_service() {
    assert_eq!(characteristics_listed(Ok(GattStatus::Success)), Ok(true));
    for status in NOT_SUCCESS {
        assert_eq!(characteristics_listed(Ok(status)), Ok(false));
    }
    assert_eq!(characteristics_listed(Err(-7)), Err(SessionError::Transport(-7)));
}

#[test]
fn a_discovered_characteristic_is_recorded_and_reported() {
    let mut state = PluginState::new();
    let found = characteristic_found(&mut state, Some(4), &battery_id(), 13);
    assert_eq!(
        found.call,
        Some(ServiceDiscoveredCall { handler: 4, service_type: 1, uuid: wide(BATTERY), uuid_len: 36 })
    );
    assert_eq!(found.uuid, BATTERY);
    assert!(!found.subscribe);
    assert_eq!(state.characteristics.get(BATTERY), Some(&13));
    assert!(state.services.is_empty());
}

#[test]
fn the_telemetry_characteristic_is_subscribed_to_at_once() {
    let mut state = PluginState::new();
    let found = characteristic_found(&mut state, None, &telemetry_id(), 30);
    assert_eq!(found.call, None);
    assert_eq!(found.uuid, TELEMETRY_UUID);
    assert!(found.subscribe);
    assert_eq!(state.characteristics.get(TELEMETRY_UUID), Some(&30));
}

#[test]
fn a_failed_subscription_to_the_telemetry_does_not_end_the_discovery() {
    assert_eq!(telemetry_subscribed(Ok(())), Ok(()));
    assert_eq!(telemetry_subscribed(Err(SessionError::EnableNotificationFailed)), Ok(()));
    assert_eq!(telemetry_subscribed(Err(SessionError::CharacteristicNotFound)), Ok(()));
    assert_eq!(telemetry_subscribed(Err(SessionError::Transport(-7))), Ok(()));
}

#[test]
fn a_discovery_records_every_service_and_characteristic() {
    let mut state = PluginState::new();
    state.device = Some(11);
    state.set_service_discovered_handler(Some(4));
    let ids = [battery_id(), telemetry_id()];
    let mut kinds = Vec::new();
    let mut handle = 100;
    for service in ids {
        handle += 1;
        let call = service_found(&mut state, Some(4), &service, handle).unwrap();
        kinds.push(call.service_type);
        for characteristic in ids {
            handle += 1;
            let found = characteristic_found(&mut state, Some(4), &characteristic, handle);
            kinds.push(found.call.unwrap().service_type);
        }
    }
    assert_eq!(kinds, vec![0, 1, 1, 0, 1, 1]);
    assert_eq!(state.services.len(), 2);
    assert_eq!(state.characteristics.len(), 2);
    assert_eq!(state.services.get(BATTERY), Some(&101));
    assert_eq!(state.services.get(TELEMETRY_UUID), Some(&104));
    assert_eq!(state.characteristics.get(BATTERY), Some(&105));
    assert_eq!(state.characteristics.get(TELEMETRY_UUID), Some(&106));
    assert_eq!(state.device, Some(11));
}

#[test]
fn a_read_finds_the_characteristic() {
    let state = with_battery();
    assert_eq!(read_characteristic(&state, BATTERY), Ok(13));
    assert_eq!(find_characteristic(&state, BATTERY), Ok(13));
}

#[test]
fn a_read_of_an_unknown_identifier_fails() {
    let state = with_battery();
    assert_eq!(
        read_characteristic(&state, "00002a1a-0000-1000-8000-00805f9b34fb"),
        Err(SessionError::CharacteristicNotFound)
    );
    assert_eq!(read_characteristic(&PluginState::new(), BATTERY), Err(SessionError::CharacteristicNotFound));
}

#[test]
fn identifiers_are_looked_up_in_lower_case() {
    let state = with_battery();
    let upper = "00002A19-0000-1000-8000-00805F9B34FB";
    let mixed = "00002a19-0000-1000-8000-00805F9b34Fb";
    assert_eq!(read_characteristic(&state, upper), Ok(13));
    assert_eq!(read_characteristic(&state, mixed), Ok(13));
    let data = [1u8, 2, 3];
    assert_eq!(
        write_characteristic(&state, upper, &data),
        Ok(WritePlan { characteristic: 13, data: &data })
    );
    assert_eq!(
        write_characteristic(&state, mixed, &data),
        write_characteristic(&state, BATTERY, &data)
    );
}

#[test]
fn the_canonical_form_is_the_lower_case_form() {
    assert_eq!(canonical("00002A19-0000-1000-8000-00805F9B34FB"), BATTERY);
    assert_eq!(canonical(BATTERY), BATTERY);
    assert_eq!(canonical("\u{c9}T\u{c9}"), "\u{e9}t\u{e9}");
    assert_eq!(canonical(""), "");
    let state = with_battery();
    assert_eq!(
        find_characteristic(&state, &canonical("00002A19-0000-1000-8000-00805F9B34FB")),
        Ok(13)
    );
}

#[test]
fn the_canonical_lookup_does_not_fold_case() {
    let state = with_battery();
    assert_eq!(
        find_characteristic(&state, "00002A19-0000-1000-8000-00805F9B34FB"),
        Err(SessionError::CharacteristicNotFound)
    );
}

#[test]
fn a_key_stored_in_upper_case_is_never_found() {
    let mut state = PluginState::new();
    state.characteristics.insert(String::from("ABCD"), 1);
    assert_eq!(read_characteristic(&state, "ABCD"), Err(SessionError::CharacteristicNotFound));
    assert_eq!(read_characteristic(&state, "abcd"), Err(SessionError::CharacteristicNotFound));
}

#[test]
fn a_read_without_success_fails() {
    assert_eq!(read_completed(Ok(GattStatus::Success)), Ok(()));
    for status in NOT_SUCCESS {
        assert_eq!(read_completed(Ok(status)), Err(SessionError::ReadFailed));
    }
    assert_eq!(read_completed(Err(-7)), Err(SessionError::Transport(-7)));
}

#[test]
fn a_value_that_was_read_is_handed_on() {
    assert_eq!(value_read(Ok(vec![1, 2, 3])), Ok(vec![1, 2, 3]));
    assert_eq!(value_read(Ok(vec![])), Ok(vec![]));
    assert_eq!(value_read(Err(-7)), Err(SessionError::Transport(-7)));
}

#[test]
fn a_write_hands_over_all_the_bytes_at_once() {
    let state = with_battery();
    let data: Vec<u8> = (0..=255).cycle().take(1000).collect();
    let plan = write_characteristic(&state, BATTERY, &data).unwrap();
    assert_eq!(plan.characteristic, 13);
    assert_eq!(plan.data, &data[..]);
    assert_eq!(plan.data.len(), 1000);
    let empty: [u8; 0] = [];
    assert_eq!(
        write_characteristic(&state, BATTERY, &empty),
        Ok(WritePlan { characteristic: 13, data: &empty })
    );
}

#[test]
fn a_write_to_an_unknown_identifier_fails() {
    let state = with_battery();
    assert_eq!(
        write_characteristic(&state, "2a19", &[1]),
        Err(SessionError::CharacteristicNotFound)
    );
}

#[test]
fn a_write_that_the_transport_refuses_fails() {
    assert_eq!(write_started(Ok(())), Ok(()));
    assert_eq!(write_started(Err(-8)), Err(SessionError::Transport(-8)));
}

#[test]
fn subscribing_names_the_characteristic_to_configure() {
    let state = with_battery();
    assert_eq!(
        enable_notification(&state, "00002A19-0000-1000-8000-00805F9B34FB"),
        Ok(Subscription::Configure { characteristic: 13, key: String::from(BATTERY) })
    );
    assert_eq!(
        subscription_for(&state, String::from(BATTERY)),
        Ok(Subscription::Configure { characteristic: 13, key: String::from(BATTERY) })
    );
}

#[test]
fn subscribing_to_an_unknown_characteristic_fails() {
    let state = with_battery();
    assert_eq!(enable_notification(&state, "2a1a"), Err(SessionError::CharacteristicNotFound));
}

#[test]
fn a_descriptor_write_without_success_fails_the_subscription() {
    assert_eq!(notification_configured(Ok(GattStatus::Success)), Ok(()));
    for status in NOT_SUCCESS {
        assert_eq!(notification_configured(Ok(status)), Err(SessionError::EnableNotificationFailed));
    }
    assert_eq!(notification_configured(Err(-5)), Err(SessionError::Transport(-5)));
}

#[test]
fn subscribing_twice_keeps_one_listener() {
    let mut state = with_battery();
    let step = enable_notification(&state, BATTERY).unwrap();
    let key = match step {
        Subscription::Configure { characteristic, key } => {
            assert_eq!(characteristic, 13);
            key
        }
        Subscription::AlreadyActive => panic!("not subscribed yet"),
    };
    assert_eq!(notification_enabled(&mut state, key, Ok(14)), Ok(()));
    assert_eq!(state.notification_handlers.len(), 1);
    assert_eq!(state.notification_handlers.get(BATTERY), Some(&14));
    let before = format!("{:?}", state);
    assert_eq!(enable_notification(&state, BATTERY), Ok(Subscription::AlreadyActive));
    assert_eq!(
        enable_notification(&state, "00002A19-0000-1000-8000-00805F9B34FB"),
        Ok(Subscription::AlreadyActive)
    );
    assert_eq!(format!("{:?}", state), before);
    assert_eq!(state.notification_handlers.len(), 1);
}

#[test]
fn a_subscription_counts_even_for_a_forgotten_characteristic() {
    let mut state = PluginState::new();
    state.notification_handlers.insert(String::from("2a19"), 14);
    assert_eq!(enable_notification(&state, "2A19"), Ok(Subscription::AlreadyActive));
}

#[test]
fn a_listener_that_fails_to_install_subscribes_nothing() {
    let mut state = with_battery();
    assert_eq!(
        notification_enabled(&mut state, String::from(BATTERY), Err(-6)),
        Err(SessionError::Transport(-6))
    );
    assert!(state.notification_handlers.is_empty());
}

#[test]
fn unsubscribing_names_the_characteristic_whether_subscribed_or_not() {
    let state = with_battery();
    assert_eq!(
        disable_notification(&state, "00002A19-0000-1000-8000-00805F9B34FB"),
        Ok(Unsubscription { characteristic: 13, key: String::from(BATTERY) })
    );
    assert_eq!(
        unsubscription_for(&state, String::from(BATTERY)),
        Ok(Unsubscription { characteristic: 13, key: String::from(BATTERY) })
    );
    assert_eq!(disable_notification(&state, "2a1a"), Err(SessionError::CharacteristicNotFound));
}

#[test]
fn unsubscribing_removes_the_listener() {
    let mut state = with_battery();
    notification_enabled(&mut state, String::from(BATTERY), Ok(14)).unwrap();
    notification_enabled(&mut state, String::from(TELEMETRY_UUID), Ok(15)).unwrap();
    assert_eq!(notification_disabled(&mut state, BATTERY, Ok(GattStatus::Success)), Ok(Some(14)));
    assert_eq!(state.notification_handlers.get(BATTERY), None);
    assert_eq!(state.notification_handlers.get(TELEMETRY_UUID), Some(&15));
    assert_eq!(notification_disabled(&mut state, BATTERY, Ok(GattStatus::Success)), Ok(None));
}

#[test]
fn a_failed_unsubscription_keeps_the_listener() {
    let mut state = with_battery();
    notification_enabled(&mut state, String::from(BATTERY), Ok(14)).unwrap();
    for status in NOT_SUCCESS {
        assert_eq!(
            notification_disabled(&mut state, BATTERY, Ok(status)),
            Err(SessionError::DisableNotificationFailed)
        );
    }
    assert_eq!(
        notification_disabled(&mut state, BATTERY, Err(-5)),
        Err(SessionError::Transport(-5))
    );
    assert_eq!(state.notification_handlers.get(BATTERY), Some(&14));
}

#[test]
fn a_changed_value_is_reported_as_hex_text() {
    let mut state = PluginState::new();
    assert_eq!(handle_value_changed(&state, BATTERY, Some(&[0x64])), None);
    state.set_value_changed_handler(Some(5));
    assert_eq!(
        handle_value_changed(&state, BATTERY, Some(&[0x64, 0x0f])),
        Some(ValueChangedCall {
            handler: 5,
            uuid: wide(BATTERY),
            uuid_len: 36,
            value: wide("640f"),
            value_len: 4,
        })
    );
    assert_eq!(handle_value_changed(&state, BATTERY, None), None);
}
