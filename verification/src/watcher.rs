//! The scan controller: starting and stopping the scan, and the cache of
//! discovered devices that advertisements fill.

use vstd::prelude::*;
use crate::callbacks::{ScanResultCall, invoke_scan_result, is_scan_result_call};
use crate::error::{CODE_OK, SessionError};
use crate::state::{Handle, PluginState, StateView, UNKNOWN_SIGNAL_STRENGTH, valid};
use crate::text::{address_text, format_address};
use crate::text_map::{inserted, inserted_then_lookup, lookup};

verus! {

/// What starting the scan asks of the caller.
#[derive(Clone, Copy, Debug, PartialEq, Eq, Structural)]
pub enum ScanStart {
    /// A listener is installed already: the scan runs, nothing is left to do.
    AlreadyScanning,
    /// A listener for advertisements is to be installed on this watcher and
    /// the watcher started; the outcome goes to `scan_started`.
    Listen(Handle),
}

/// The answer of `start_scan` in a given state.
pub open spec fn scan_start(s: StateView) -> Result<ScanStart, SessionError> {
    if s.watcher_handler is Some {
        Ok(ScanStart::AlreadyScanning)
    } else {
        match s.watcher {
            Some(watcher) => Ok(ScanStart::Listen(watcher)),
            None => Err(SessionError::WatcherNotInitialized),
        }
    }
}

/// Starts the scan: succeeds at once while a listener is installed, fails
/// without a watcher, and otherwise names the watcher to listen on.
pub fn start_scan(state: &PluginState) -> (step: Result<ScanStart, SessionError>)
    ensures
        step == scan_start(state@),
{
    if state.watcher_handler.is_some() {
        return Ok(ScanStart::AlreadyScanning);
    }
    match state.watcher {
        Some(watcher) => Ok(ScanStart::Listen(watcher)),
        None => Err(SessionError::WatcherNotInitialized),
    }
}

/// Takes the outcome of installing the listener and starting the watcher.
/// With a listener the scan runs; with an error nothing changes and the error
/// is handed on.
pub fn scan_started(state: &mut PluginState, installed: Result<Handle, i32>) -> (outcome: Result<
    (),
    SessionError,
>)
    ensures
        match installed {
            Ok(listener) => outcome == Ok::<(), SessionError>(()) && final(state)@ == (StateView {
                watcher_handler: Some(listener),
                ..old(state)@
            }),
            Err(code) => outcome == Err::<(), SessionError>(SessionError::Transport(code))
                && final(state)@ == old(state)@,
        },
        valid(final(state)@),
{
    state.validity();
    match installed {
        Ok(listener) => {
            state.watcher_handler = Some(listener);
            Ok(())
        },
        Err(code) => Err(SessionError::Transport(code)),
    }
}

/// Stops the scan: the listener is forgotten. The result is the watcher that
/// the caller has to stop, if there is one.
pub fn stop_scan(state: &mut PluginState) -> (stop: Option<Handle>)
    ensures
        stop == old(state).watcher,
        final(state)@ == (StateView { watcher_handler: None, ..old(state)@ }),
        valid(final(state)@),
{
    state.validity();
    state.watcher_handler = None;
    state.watcher
}

/// The state after a device was seen under `name` at `address`: the last
/// address wins.
pub open spec fn advertised_state(s: StateView, name: Seq<char>, address: u64) -> StateView {
    StateView { discovered_devices: inserted(s.discovered_devices, name, address), ..s }
}

/// Takes one advertisement. What the transport could not tell counts as
/// address zero, the weakest signal and no name. An advertisement without a
/// name is dropped. Any other is recorded under its name and reported: the
/// result is the call of the scan-result handler, with the address as text.
pub fn handle_advertisement_received(
    state: &mut PluginState,
    address: Option<u64>,
    rssi: Option<i16>,
    name: Option<String>,
) -> (call: Option<ScanResultCall>)
    ensures
        ({
            let seen_address = if address is Some { address->0 } else { 0 };
            let seen_rssi = if rssi is Some { rssi->0 as i32 } else { UNKNOWN_SIGNAL_STRENGTH };
            let seen_name = if name is Some { name->0@ } else { Seq::<char>::empty() };
            if seen_name.len() == 0 {
                call is None && final(state)@ == old(state)@
            } else {
                &&& final(state)@ == advertised_state(old(state)@, seen_name, seen_address)
                &&& is_scan_result_call(
                    call,
                    old(state).scan_result_handler,
                    address_text(seen_address),
                    seen_name,
                    seen_rssi,
                )
            }
        }),
        valid(final(state)@),
{
    state.validity();
    let seen_address: u64 = match address {
        Some(a) => a,
        None => 0,
    };
    let seen_rssi: i32 = match rssi {
        Some(r) => r as i32,
        None => UNKNOWN_SIGNAL_STRENGTH,
    };
    let seen_name = match name {
        Some(n) => n,
        None => {
            return None;
        },
    };
    if seen_name.as_str().is_empty() {
        return None;
    }
    state.discovered_devices.insert(seen_name.clone(), seen_address);
    let addr_text = format_address(seen_address);
    invoke_scan_result(state.scan_result_handler, addr_text.as_str(), seen_name.as_str(), seen_rssi)
}

/// The address recorded under exactly this name. A name that is recorded in
/// a shorter form only is not found here: resolving a name for a connection,
/// with its fallback to a recorded prefix, is `resolve_address`.
pub fn get_address_for_name(state: &PluginState, name: &str) -> (address: Option<u64>)
    ensures
        address == lookup(state@.discovered_devices, name@),
{
    match state.discovered_devices.get(name) {
        Some(address) => Some(*address),
        None => None,
    }
}

/// Forgets every discovered device. The connection is not touched.
pub fn clear_scan(state: &mut PluginState) -> (code: i32)
    ensures
        final(state)@ == (StateView { discovered_devices: Seq::empty(), ..old(state)@ }),
        valid(final(state)@),
        code == CODE_OK,
{
    state.validity();
    state.discovered_devices.clear();
    CODE_OK
}

/// The last address seen for a name wins: after an advertisement the name
/// holds the advertised address, whatever it held before, and every other
/// name holds what it held.
pub proof fn last_address_wins(s: StateView, name: Seq<char>, address: u64, other: Seq<char>)
    requires
        valid(s),
    ensures
        valid(advertised_state(s, name, address)),
        lookup(advertised_state(s, name, address).discovered_devices, name) == Some(address),
        other != name ==> lookup(advertised_state(s, name, address).discovered_devices, other)
            == lookup(s.discovered_devices, other),
{
    inserted_then_lookup(s.discovered_devices, name, address, other);
}

} // verus!
