//! The callback registry's outgoing calls.
//!
//! A handler is registered as a token that stands for the host's function. An
//! event for a category without a handler is dropped; an event for a category
//! with one becomes a call record that holds the handler's token and the
//! arguments in the form in which they cross the boundary: text as
//! zero-terminated UTF-16 with its length in units, the terminator not
//! counted.

use vstd::prelude::*;
use crate::text::{encode_utf16, hex_encode, hex_of_bytes, utf16_of, wide_of};

verus! {

/// Handler for scan results.
pub type ScanResultHandler = Option<usize>;

/// Handler for changes of the connection state.
pub type ConnectionStateHandler = Option<usize>;

/// Handler for discovered services and characteristics.
pub type ServiceDiscoveredHandler = Option<usize>;

/// Handler for changed characteristic values.
pub type ValueChangedHandler = Option<usize>;

/// Handler for changes of the scan state.
pub type ScanStateChangedHandler = Option<usize>;

/// Handler for generic notifications.
pub type NotificationHandler = Option<usize>;

/// Connection state reported when the link is down.
pub const STATE_DISCONNECTED: i32 = 0;

/// Connection state reported while the link is coming up, or in any state
/// that is neither up nor down.
pub const STATE_CONNECTING: i32 = 1;

/// Connection state reported when the link is up.
pub const STATE_CONNECTED: i32 = 2;

/// Kind reported for a discovered service.
pub const KIND_SERVICE: i32 = 0;

/// Kind reported for a discovered characteristic.
pub const KIND_CHARACTERISTIC: i32 = 1;

/// The length of `s` in UTF-16 units, as the boundary's 32-bit length.
pub open spec fn wide_len(s: Seq<char>) -> i32 {
    utf16_of(s).len() as i32
}

/// A call of the scan-result handler.
#[derive(Debug, PartialEq, Eq)]
pub struct ScanResultCall {
    pub handler: usize,
    pub addr: Vec<u16>,
    pub addr_len: i32,
    pub name: Vec<u16>,
    pub name_len: i32,
    pub rssi: i32,
}

/// A call of the connection-state handler.
#[derive(Clone, Copy, Debug, PartialEq, Eq, Structural)]
pub struct ConnectionStateCall {
    pub handler: usize,
    pub state: i32,
}

/// A call of the discovery handler.
#[derive(Debug, PartialEq, Eq)]
pub struct ServiceDiscoveredCall {
    pub handler: usize,
    pub service_type: i32,
    pub uuid: Vec<u16>,
    pub uuid_len: i32,
}

/// A call of the value-changed handler. The value crosses as text, two
/// lower-case base-sixteen digits for each byte.
#[derive(Debug, PartialEq, Eq)]
pub struct ValueChangedCall {
    pub handler: usize,
    pub uuid: Vec<u16>,
    pub uuid_len: i32,
    pub value: Vec<u16>,
    pub value_len: i32,
}

/// What `invoke_scan_result` hands back for the given handler and arguments.
pub open spec fn is_scan_result_call(
    call: Option<ScanResultCall>,
    handler: ScanResultHandler,
    addr: Seq<char>,
    name: Seq<char>,
    rssi: i32,
) -> bool {
    match handler {
        None => call is None,
        Some(h) => {
            &&& call is Some
            &&& call->0.handler == h
            &&& call->0.addr@ == wide_of(addr)
            &&& call->0.addr_len == wide_len(addr)
            &&& call->0.name@ == wide_of(name)
            &&& call->0.name_len == wide_len(name)
            &&& call->0.rssi == rssi
        },
    }
}

/// What `invoke_connection_state` hands back for the given handler and state.
pub open spec fn connection_state_call(handler: ConnectionStateHandler, state: i32) -> Option<
    ConnectionStateCall,
> {
    match handler {
        None => None,
        Some(h) => Some(ConnectionStateCall { handler: h, state }),
    }
}

/// What `invoke_service_discovered` hands back for the given handler and
/// arguments.
pub open spec fn is_service_discovered_call(
    call: Option<ServiceDiscoveredCall>,
    handler: ServiceDiscoveredHandler,
    service_type: i32,
    uuid: Seq<char>,
) -> bool {
    match handler {
        None => call is None,
        Some(h) => {
            &&& call is Some
            &&& call->0.handler == h
            &&& call->0.service_type == service_type
            &&& call->0.uuid@ == wide_of(uuid)
            &&& call->0.uuid_len == wide_len(uuid)
        },
    }
}

/// What `invoke_value_changed` hands back for the given handler and
/// arguments.
pub open spec fn is_value_changed_call(
    call: Option<ValueChangedCall>,
    handler: ValueChangedHandler,
    uuid: Seq<char>,
    value: Seq<u8>,
) -> bool {
    match handler {
        None => call is None,
        Some(h) => {
            &&& call is Some
            &&& call->0.handler == h
            &&& call->0.uuid@ == wide_of(uuid)
            &&& call->0.uuid_len == wide_len(uuid)
            &&& call->0.value@ == wide_of(hex_of_bytes(value))
            &&& call->0.value_len == wide_len(hex_of_bytes(value))
        },
    }
}

/// Encodes `s` for the boundary: the zero-terminated units and their count
/// without the terminator.
fn boundary_text(s: &str) -> (r: (Vec<u16>, i32))
    ensures
        r.0@ == wide_of(s@),
        r.1 == wide_len(s@),
{
    let mut units = encode_utf16(s);
    let len = units.len() as i32;
    units.push(0);
    (units, len)
}

/// The call that reports one scan result, or nothing without a handler.
pub fn invoke_scan_result(handler: ScanResultHandler, addr: &str, name: &str, rssi: i32) -> (call:
    Option<ScanResultCall>)
    ensures
        is_scan_result_call(call, handler, addr@, name@, rssi),
{
    match handler {
        None => None,
        Some(h) => {
            let (addr_units, addr_len) = boundary_text(addr);
            let (name_units, name_len) = boundary_text(name);
            Some(
                ScanResultCall {
                    handler: h,
                    addr: addr_units,
                    addr_len,
                    name: name_units,
                    name_len,
                    rssi,
                },
            )
        },
    }
}

/// The call that reports a connection state, or nothing without a handler.
pub fn invoke_connection_state(handler: ConnectionStateHandler, state: i32) -> (call: Option<
    ConnectionStateCall,
>)
    ensures
        call == connection_state_call(handler, state),
{
    match handler {
        None => None,
        Some(h) => Some(ConnectionStateCall { handler: h, state }),
    }
}

/// The call that reports a discovered service or characteristic, or nothing
/// without a handler.
pub fn invoke_service_discovered(
    handler: ServiceDiscoveredHandler,
    service_type: i32,
    uuid: &str,
) -> (call: Option<ServiceDiscoveredCall>)
    ensures
        is_service_discovered_call(call, handler, service_type, uuid@),
{
    match handler {
        None => None,
        Some(h) => {
            let (uuid_units, uuid_len) = boundary_text(uuid);
            Some(ServiceDiscoveredCall { handler: h, service_type, uuid: uuid_units, uuid_len })
        },
    }
}

/// The call that reports a changed value, or nothing without a handler.
pub fn invoke_value_changed(handler: ValueChangedHandler, uuid: &str, value: &[u8]) -> (call:
    Option<ValueChangedCall>)
    ensures
        is_value_changed_call(call, handler, uuid@, value@),
{
    match handler {
        None => None,
        Some(h) => {
            let (uuid_units, uuid_len) = boundary_text(uuid);
            let digits = hex_encode(value);
            let (value_units, value_len) = boundary_text(digits.as_str());
            Some(
                ValueChangedCall {
                    handler: h,
                    uuid: uuid_units,
                    uuid_len,
                    value: value_units,
                    value_len,
                },
            )
        },
    }
}

} // verus!
