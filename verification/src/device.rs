//! The connection manager: finding a device by name, taking note of a
//! connection, reporting the connection state, and disconnecting.

use vstd::prelude::*;
use vstd::string::StringExecFns;
use crate::callbacks::{
    ConnectionStateCall,
    STATE_CONNECTED,
    STATE_CONNECTING,
    STATE_DISCONNECTED,
    connection_state_call,
    invoke_connection_state,
};
use crate::error::SessionError;
use crate::state::{
    Handle,
    PluginState,
    StateView,
    UNKNOWN_BATTERY_LEVEL,
    UNKNOWN_SIGNAL_STRENGTH,
    reset_state,
    valid,
};
use crate::text_map::{
    find_key_at,
    find_key_is_first,
    find_prefix_at,
    lookup,
    lookup_prefix,
};

verus! {

/// The address that a name resolves to: the one recorded under exactly this
/// name, or else that of the first recorded name that is a prefix of it.
pub open spec fn resolved_address(devices: Seq<(Seq<char>, u64)>, name: Seq<char>) -> Option<u64> {
    match lookup(devices, name) {
        Some(address) => Some(address),
        None => lookup_prefix(devices, name),
    }
}

/// Resolves a device name to an address. A name that was advertised in a
/// shortened form is found through the prefix it starts with.
pub fn resolve_address(state: &PluginState, name: &str) -> (address: Option<u64>)
    ensures
        address == resolved_address(state@.discovered_devices, name@),
{
    match state.discovered_devices.get(name) {
        Some(address) => Some(*address),
        None => match state.discovered_devices.get_by_prefix(name) {
            Some(address) => Some(*address),
            None => None,
        },
    }
}

/// What connecting asks of the caller: report the state `announce`, then
/// connect to `address` and hand the outcome to `device_connected`.
#[derive(Clone, Copy, Debug, PartialEq, Eq, Structural)]
pub struct ConnectPlan {
    pub address: u64,
    pub announce: Option<ConnectionStateCall>,
}

/// The answer of `connect_by_name` in a given state.
pub open spec fn connect_plan(s: StateView, name: Seq<char>) -> Result<ConnectPlan, SessionError> {
    match resolved_address(s.discovered_devices, name) {
        Some(address) => Ok(
            ConnectPlan {
                address,
                announce: connection_state_call(s.connection_state_handler, STATE_CONNECTING),
            },
        ),
        None => Err(SessionError::DeviceNotFound),
    }
}

/// Begins a connection to the device of that name. It fails when the name
/// resolves to no address; otherwise the connection is announced as coming
/// up.
pub fn connect_by_name(state: &PluginState, name: &str) -> (plan: Result<ConnectPlan, SessionError>)
    ensures
        plan == connect_plan(state@, name@),
{
    match resolve_address(state, name) {
        Some(address) => Ok(
            ConnectPlan {
                address,
                announce: invoke_connection_state(state.connection_state_handler, STATE_CONNECTING),
            },
        ),
        None => Err(SessionError::DeviceNotFound),
    }
}

/// The state once `device` is connected under `name` at `address`.
pub open spec fn connected_state(s: StateView, name: Seq<char>, address: u64, device: Handle)
    -> StateView {
    StateView {
        device: Some(device),
        device_name: Some(name),
        device_address: address,
        is_connected: true,
        ..s
    }
}

/// Takes the outcome of the transport's connect. With a device the session
/// is connected to it; with an error nothing changes and the error is handed
/// on.
pub fn device_connected(
    state: &mut PluginState,
    name: &str,
    address: u64,
    opened: Result<Handle, i32>,
) -> (outcome: Result<(), SessionError>)
    ensures
        match opened {
            Ok(device) => outcome == Ok::<(), SessionError>(()) && final(state)@ == connected_state(
                old(state)@,
                name@,
                address,
                device,
            ),
            Err(code) => outcome == Err::<(), SessionError>(SessionError::Transport(code))
                && final(state)@ == old(state)@,
        },
        valid(final(state)@),
{
    state.validity();
    match opened {
        Ok(device) => {
            state.device = Some(device);
            state.device_name = Some(String::from_str(name));
            state.device_address = address;
            state.is_connected = true;
            Ok(())
        },
        Err(code) => Err(SessionError::Transport(code)),
    }
}

/// Whether a listener for the connection status has to be installed: only
/// while none is.
pub fn setup_connection_status_handler(state: &PluginState) -> (install: bool)
    ensures
        install == (state.connection_status_handler is None),
{
    state.connection_status_handler.is_none()
}

/// Takes the outcome of installing the listener for the connection status.
/// With a listener it is kept; with an error nothing changes and the error is
/// handed on.
pub fn connection_status_handler_installed(state: &mut PluginState, installed: Result<Handle, i32>)
    -> (outcome: Result<(), SessionError>)
    ensures
        match installed {
            Ok(listener) => outcome == Ok::<(), SessionError>(()) && final(state)@ == (StateView {
                connection_status_handler: Some(listener),
                ..old(state)@
            }),
            Err(code) => outcome == Err::<(), SessionError>(SessionError::Transport(code))
                && final(state)@ == old(state)@,
        },
        valid(final(state)@),
{
    state.validity();
    match installed {
        Ok(listener) => {
            state.connection_status_handler = Some(listener);
            Ok(())
        },
        Err(code) => Err(SessionError::Transport(code)),
    }
}

/// The status of the link as the transport reports it.
#[derive(Clone, Copy, Debug, PartialEq, Eq, Structural)]
pub enum LinkStatus {
    Disconnected,
    Connected,
    /// Any status that is neither of the two.
    Other,
}

/// The connection state that stands for a status of the link: whatever is
/// neither connected nor disconnected counts as coming up.
pub open spec fn state_of_link(status: LinkStatus) -> i32 {
    match status {
        LinkStatus::Disconnected => STATE_DISCONNECTED,
        LinkStatus::Connected => STATE_CONNECTED,
        LinkStatus::Other => STATE_CONNECTING,
    }
}

/// The connection state that stands for a status of the link.
pub fn connection_state_of(status: LinkStatus) -> (value: i32)
    ensures
        value == state_of_link(status),
{
    match status {
        LinkStatus::Disconnected => STATE_DISCONNECTED,
        LinkStatus::Connected => STATE_CONNECTED,
        LinkStatus::Other => STATE_CONNECTING,
    }
}

/// Told that the connection status changed: the device to ask for its status,
/// or nothing when none is connected.
pub fn connection_status_changed(state: &PluginState) -> (device: Option<Handle>)
    ensures
        device == state.device,
{
    state.device
}

/// Takes the status that the device gave after a change and reports it. A
/// status that could not be read is not reported.
pub fn report_connection_status(state: &PluginState, status: Result<LinkStatus, i32>) -> (call:
    Option<ConnectionStateCall>)
    ensures
        call == match status {
            Ok(link) => connection_state_call(state.connection_state_handler, state_of_link(link)),
            Err(_) => None,
        },
{
    match status {
        Ok(link) => notify_connection_state(state, connection_state_of(link)),
        Err(_) => None,
    }
}

/// The state after a disconnect: the empty form of an initialized session.
/// No device with its name and address, no services, no characteristics, no
/// subscriptions, no listener for the connection status, and nothing kept by
/// size probes. The handlers, the watcher and the scan, and the cache of
/// discovered devices, which does not depend on the connection, stay.
pub open spec fn disconnected_state(s: StateView) -> StateView {
    StateView { discovered_devices: s.discovered_devices, ..reset_state(s) }
}

/// Disconnects, whether or not anything was connected, and reports the
/// disconnected state: the result is that one call of the connection-state
/// handler.
pub fn disconnect(state: &mut PluginState) -> (call: Option<ConnectionStateCall>)
    ensures
        final(state)@ == disconnected_state(old(state)@),
        call == connection_state_call(old(state).connection_state_handler, STATE_DISCONNECTED),
        valid(final(state)@),
{
    state.validity();
    let handler = state.connection_state_handler;
    state.device = None;
    state.is_connected = false;
    state.device_name = None;
    state.device_address = 0;
    state.battery_level = UNKNOWN_BATTERY_LEVEL;
    state.signal_strength = UNKNOWN_SIGNAL_STRENGTH;
    state.services.clear();
    state.characteristics.clear();
    state.notification_handlers.clear();
    state.connection_status_handler = None;
    state.pending_reads.clear();
    invoke_connection_state(handler, STATE_DISCONNECTED)
}

/// Reports that a connection is established. The caller performs this call
/// once the device is kept and the listener for its status is in place.
pub fn connection_established(state: &PluginState) -> (call: Option<ConnectionStateCall>)
    ensures
        call == connection_state_call(state.connection_state_handler, STATE_CONNECTED),
{
    invoke_connection_state(state.connection_state_handler, STATE_CONNECTED)
}

/// Reports a connection state to the registered handler.
pub fn notify_connection_state(state: &PluginState, value: i32) -> (call: Option<
    ConnectionStateCall,
>)
    ensures
        call == connection_state_call(state.connection_state_handler, value),
{
    invoke_connection_state(state.connection_state_handler, value)
}

/// Ends an attempt to connect. After a failure the session is disconnected
/// and that is reported; after a success nothing is left to do.
pub fn connect_finished(state: &mut PluginState, outcome: &Result<(), SessionError>) -> (call:
    Option<ConnectionStateCall>)
    ensures
        match *outcome {
            Ok(_) => call is None && final(state)@ == old(state)@,
            Err(_) => final(state)@ == disconnected_state(old(state)@) && call
                == connection_state_call(old(state).connection_state_handler, STATE_DISCONNECTED),
        },
        valid(final(state)@),
{
    state.validity();
    match outcome {
        Ok(_) => None,
        Err(_) => disconnect(state),
    }
}

/// Disconnecting is safe to repeat: a second disconnect changes nothing more
/// and reports the same single disconnected state as the first. What a
/// disconnect leaves is the empty form of the session: nothing of the
/// connection is left, while the cache of discovered devices stays.
pub proof fn disconnect_is_idempotent(s: StateView)
    ensures
        disconnected_state(disconnected_state(s)) == disconnected_state(s),
        !disconnected_state(s).is_connected,
        disconnected_state(s).device is None,
        disconnected_state(s).device_name is None,
        disconnected_state(s).device_address == 0,
        disconnected_state(s).services.len() == 0,
        disconnected_state(s).characteristics.len() == 0,
        disconnected_state(s).notification_handlers.len() == 0,
        disconnected_state(s).connection_status_handler is None,
        disconnected_state(s).pending_reads.len() == 0,
        disconnected_state(s).discovered_devices == s.discovered_devices,
        disconnected_state(s).initialized == s.initialized,
        connection_state_call(disconnected_state(s).connection_state_handler, STATE_DISCONNECTED)
            == connection_state_call(s.connection_state_handler, STATE_DISCONNECTED),
        s.connection_state_handler is Some ==> connection_state_call(
            s.connection_state_handler,
            STATE_DISCONNECTED,
        ) == Some(
            ConnectionStateCall { handler: s.connection_state_handler->0, state: STATE_DISCONNECTED },
        ),
{
}

/// A connect that succeeds reports the state of coming up and then the state
/// of being up, both to the handler that is registered, and leaves the
/// session connected to the device under the name and address asked for.
/// The first call is the one that `connect_by_name` answers with, before the
/// transport is asked; the second is the one that `connection_established`
/// answers with, after the device is kept and the listener installed.
pub proof fn a_connect_reports_coming_up_then_up(
    s: StateView,
    name: Seq<char>,
    device: Handle,
    listener: Handle,
)
    requires
        connect_plan(s, name) is Ok,
    ensures
        ({
            let plan = connect_plan(s, name)->Ok_0;
            let kept = connected_state(s, name, plan.address, device);
            let listening = StateView { connection_status_handler: Some(listener), ..kept };
            &&& resolved_address(s.discovered_devices, name) == Some(plan.address)
            &&& plan.announce == connection_state_call(s.connection_state_handler, STATE_CONNECTING)
            &&& kept.is_connected && kept.device == Some(device)
            &&& kept.device_name == Some(name) && kept.device_address == plan.address
            &&& connection_state_call(kept.connection_state_handler, STATE_CONNECTED)
                == connection_state_call(s.connection_state_handler, STATE_CONNECTED)
            &&& connection_state_call(listening.connection_state_handler, STATE_CONNECTED)
                == connection_state_call(s.connection_state_handler, STATE_CONNECTED)
            &&& s.connection_state_handler is Some ==> plan.announce == Some(
                ConnectionStateCall {
                    handler: s.connection_state_handler->0,
                    state: STATE_CONNECTING,
                },
            ) && connection_state_call(listening.connection_state_handler, STATE_CONNECTED)
                == Some(
                ConnectionStateCall {
                    handler: s.connection_state_handler->0,
                    state: STATE_CONNECTED,
                },
            )
        }),
{
}

/// A name resolves through a recorded prefix where nothing is recorded under
/// the name itself: the address is that of the first recorded name that the
/// asked name starts with.
pub proof fn a_longer_name_resolves_by_prefix(
    devices: Seq<(Seq<char>, u64)>,
    name: Seq<char>,
    i: int,
)
    requires
        forall|j: int| 0 <= j < devices.len() ==> (#[trigger] devices[j]).0 != name,
        0 <= i < devices.len(),
        devices[i].0.is_prefix_of(name),
        forall|j: int| 0 <= j < i ==> !(#[trigger] devices[j]).0.is_prefix_of(name),
    ensures
        resolved_address(devices, name) == Some(devices[i].1),
{
    find_key_is_first(devices, name);
    find_prefix_at(devices, name, i);
}

/// A name that is recorded resolves to its own address, whatever prefixes of
/// it are recorded too.
pub proof fn an_exact_name_resolves_to_itself(
    devices: Seq<(Seq<char>, u64)>,
    name: Seq<char>,
    i: int,
)
    requires
        0 <= i < devices.len(),
        devices[i].0 == name,
        forall|j: int| 0 <= j < i ==> (#[trigger] devices[j]).0 != name,
    ensures
        resolved_address(devices, name) == Some(devices[i].1),
{
    find_key_at(devices, name, i);
}

/// Whether the connected flag and the device agree: the session counts as
/// connected exactly while it holds a device.
pub open spec fn connection_consistent(s: StateView) -> bool {
    s.is_connected == (s.device is Some)
}

/// Connecting and disconnecting keep the connected flag and the device in
/// agreement.
pub proof fn connection_stays_consistent(
    s: StateView,
    name: Seq<char>,
    address: u64,
    device: Handle,
)
    ensures
        connection_consistent(connected_state(s, name, address, device)),
        connection_consistent(disconnected_state(s)),
{
}

} // verus!
