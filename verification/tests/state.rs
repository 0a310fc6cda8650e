use ble_session::error::SessionError;
use ble_session::state::{
    cleanup, initialize, watcher_created, DiscoveryFlag, DiscoveryTurn, PendingRead, PluginState,
    Startup, ADVERTISED_NAME, UNKNOWN_BATTERY_LEVEL, UNKNOWN_SIGNAL_STRENGTH,
};

fn busy_state() -> PluginState {
    let mut state = PluginState::new();
    state.initialized = true;
    state.is_connected = true;
    state.device_name = Some(String::from("SquareGolf-42"));
    state.device_address = 0x0011223344;
    state.battery_level = 80;
    state.signal_strength = -40;
    state.set_scan_result_handler(Some(1));
    state.set_scan_state_changed_handler(Some(2));
    state.set_connection_state_handler(Some(3));
    state.set_service_discovered_handler(Some(4));
    state.set_value_changed_handler(Some(5));
    state.set_notification_handler(Some(6));
    state.watcher = Some(10);
    state.device = Some(11);
    state.services.insert(String::from("180a"), 12);
    state.characteristics.insert(String::from("2a19"), 13);
    state.notification_handlers.insert(String::from("2a19"), 14);
    state.watcher_handler = Some(15);
    state.connection_status_handler = Some(16);
    state.discovered_devices.insert(String::from("SquareGolf-42"), 0x0011223344);
    state.pending_reads.insert(String::from("2a19"), PendingRead { data: vec![1, 2, 3], buffer: 64 });
    state
}

#[test]
fn a_new_state_knows_nothing() {
    let state = PluginState::new();
    assert!(!state.initialized);
    assert!(!state.is_connected);
    assert_eq!(state.device_name, None);
    assert_eq!(state.device_address, 0);
    assert_eq!(state.battery_level, -1);
    assert_eq!(state.signal_strength, -100);
    assert_eq!(state.scan_result_handler, None);
    assert_eq!(state.scan_state_changed_handler, None);
    assert_eq!(state.connection_state_handler, None);
    assert_eq!(state.service_discovered_handler, None);
    assert_eq!(state.value_changed_handler, None);
    assert_eq!(state.notification_handler, None);
    assert_eq!(state.watcher, None);
    assert_eq!(state.device, None);
    assert!(state.services.is_empty());
    assert!(state.characteristics.is_empty());
    assert!(state.notification_handlers.is_empty());
    assert_eq!(state.watcher_handler, None);
    assert_eq!(state.connection_status_handler, None);
    assert!(state.discovered_devices.is_empty());
    assert!(state.pending_reads.is_empty());
    state.validity();
}

#[test]
fn the_defaults_while_nothing_is_known() {
    assert_eq!(UNKNOWN_BATTERY_LEVEL, -1);
    assert_eq!(UNKNOWN_SIGNAL_STRENGTH, -100);
    assert_eq!(ADVERTISED_NAME, "SquareGolf");
}

#[test]
fn reset_forgets_the_connection_and_the_caches() {
    let mut state = busy_state();
    state.reset();
    assert!(!state.is_connected);
    assert_eq!(state.device_name, None);
    assert_eq!(state.device_address, 0);
    assert_eq!(state.battery_level, -1);
    assert_eq!(state.signal_strength, -100);
    assert_eq!(state.device, None);
    assert!(state.services.is_empty());
    assert!(state.characteristics.is_empty());
    assert!(state.notification_handlers.is_empty());
    assert_eq!(state.connection_status_handler, None);
    assert!(state.discovered_devices.is_empty());
    assert!(state.pending_reads.is_empty());
}

#[test]
fn reset_keeps_handlers_watcher_and_initialization() {
    let mut state = busy_state();
    state.reset();
    assert!(state.initialized);
    assert_eq!(state.scan_result_handler, Some(1));
    assert_eq!(state.scan_state_changed_handler, Some(2));
    assert_eq!(state.connection_state_handler, Some(3));
    assert_eq!(state.service_discovered_handler, Some(4));
    assert_eq!(state.value_changed_handler, Some(5));
    assert_eq!(state.notification_handler, Some(6));
    assert_eq!(state.watcher, Some(10));
    assert_eq!(state.watcher_handler, Some(15));
}

#[test]
fn a_setter_replaces_the_handler_and_returns_zero() {
    let mut state = PluginState::new();
    assert_eq!(state.set_scan_result_handler(Some(1)), 0);
    assert_eq!(state.set_scan_result_handler(Some(2)), 0);
    assert_eq!(state.scan_result_handler, Some(2));
    assert_eq!(state.set_scan_result_handler(None), 0);
    assert_eq!(state.scan_result_handler, None);
}

#[test]
fn each_setter_touches_its_own_category() {
    let mut state = PluginState::new();
    assert_eq!(state.set_scan_state_changed_handler(Some(2)), 0);
    assert_eq!(state.set_connection_state_handler(Some(3)), 0);
    assert_eq!(state.set_service_discovered_handler(Some(4)), 0);
    assert_eq!(state.set_value_changed_handler(Some(5)), 0);
    assert_eq!(state.set_notification_handler(Some(6)), 0);
    assert_eq!(state.scan_result_handler, None);
    assert_eq!(state.scan_state_changed_handler, Some(2));
    assert_eq!(state.connection_state_handler, Some(3));
    assert_eq!(state.service_discovered_handler, Some(4));
    assert_eq!(state.value_changed_handler, Some(5));
    assert_eq!(state.notification_handler, Some(6));
}

#[test]
fn initialize_asks_for_the_watcher_once() {
    let mut state = PluginState::new();
    assert_eq!(initialize(&state), Startup::CreateWatcher);
    assert_eq!(watcher_created(&mut state, Ok(10)), Ok(()));
    assert!(state.initialized);
    assert_eq!(state.watcher, Some(10));
    assert_eq!(initialize(&state), Startup::Ready);
}

#[test]
fn a_watcher_that_cannot_be_created_leaves_the_session_closed() {
    let mut state = PluginState::new();
    assert_eq!(watcher_created(&mut state, Err(-2147024891)), Err(SessionError::Transport(-2147024891)));
    assert!(!state.initialized);
    assert_eq!(state.watcher, None);
    assert_eq!(initialize(&state), Startup::CreateWatcher);
}

#[test]
fn cleanup_returns_the_watcher_and_keeps_only_the_handlers() {
    let mut state = busy_state();
    assert_eq!(cleanup(&mut state), Some(10));
    assert!(!state.initialized);
    assert!(!state.is_connected);
    assert_eq!(state.watcher, None);
    assert_eq!(state.watcher_handler, None);
    assert_eq!(state.device, None);
    assert_eq!(state.device_name, None);
    assert_eq!(state.device_address, 0);
    assert_eq!(state.battery_level, -1);
    assert_eq!(state.signal_strength, -100);
    assert!(state.services.is_empty());
    assert!(state.characteristics.is_empty());
    assert!(state.notification_handlers.is_empty());
    assert_eq!(state.connection_status_handler, None);
    assert!(state.discovered_devices.is_empty());
    assert!(state.pending_reads.is_empty());
    assert_eq!(state.scan_result_handler, Some(1));
    assert_eq!(state.connection_state_handler, Some(3));
    assert_eq!(state.notification_handler, Some(6));
}

#[test]
fn cleanup_of_a_closed_session_stops_nothing() {
    let mut state = PluginState::new();
    assert_eq!(cleanup(&mut state), None);
    assert!(!state.initialized);
}

#[test]
fn the_first_caller_runs_the_discovery() {
    let mut flag = DiscoveryFlag::new();
    assert!(!flag.in_progress);
    assert_eq!(flag.enter(), DiscoveryTurn::Run);
    assert!(flag.in_progress);
}

#[test]
fn a_second_caller_waits_until_the_first_has_left() {
    let mut flag = DiscoveryFlag::new();
    assert_eq!(flag.enter(), DiscoveryTurn::Run);
    assert_eq!(flag.enter(), DiscoveryTurn::Wait);
    assert_eq!(flag.enter(), DiscoveryTurn::Wait);
    assert_eq!(flag.poll(), None);
    assert_eq!(flag.poll(), None);
    let outcome: Result<(), SessionError> = Ok(());
    assert_eq!(flag.leave(&outcome), 0);
    assert_eq!(flag.poll(), Some(0));
}

#[test]
fn a_waiting_caller_gets_success_whatever_the_running_one_got() {
    let mut flag = DiscoveryFlag::new();
    flag.enter();
    assert_eq!(flag.enter(), DiscoveryTurn::Wait);
    let outcome: Result<(), SessionError> = Err(SessionError::ServiceQueryFailed);
    assert_eq!(flag.leave(&outcome), -1);
    assert_eq!(flag.poll(), Some(0));
}

#[test]
fn a_later_caller_runs_again_after_a_discovery() {
    let mut flag = DiscoveryFlag::new();
    flag.enter();
    let outcome: Result<(), SessionError> = Ok(());
    flag.leave(&outcome);
    assert!(!flag.in_progress);
    assert_eq!(flag.enter(), DiscoveryTurn::Run);
}
