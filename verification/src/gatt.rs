//! The GATT session: discovery of services and characteristics, reads and
//! writes, and subscriptions to value changes.
//!
//! Identifiers are compared in their canonical lower-case form. Each
//! operation that takes an identifier from the caller brings it to that form
//! first and then works on the canonical key.

use vstd::prelude::*;
use vstd::string::StringExecFns;
use crate::callbacks::{
    KIND_CHARACTERISTIC,
    KIND_SERVICE,
    ServiceDiscoveredCall,
    ServiceDiscoveredHandler,
    ValueChangedCall,
    invoke_service_discovered,
    invoke_value_changed,
    is_service_discovered_call,
    is_value_changed_call,
};
use crate::error::{
    GattStatus,
    SessionError,
    check_completed,
    completed,
    from_transport,
    transported,
};
use crate::state::{Handle, PluginState, StateView, valid};
use crate::text::{
    hex_text,
    hex_text_shape,
    is_hex_digit,
    lowercase_of,
    push_hex,
    same_text,
    sixteen_to,
    to_lowercase,
};
use crate::text_map::{
    find_key_is_first,
    inserted,
    inserted_then_lookup,
    lookup,
    removed,
    removed_then_lookup,
};

verus! {

/// The characteristic that carries the device's telemetry. Discovery
/// subscribes to it by itself.
pub const TELEMETRY_UUID: &'static str = "86602102-6b7e-439a-bdd1-489a3213e9bb";

/// A 128-bit identifier in its four groups.
#[derive(Clone, Copy, Debug, PartialEq, Eq)]
pub struct Guid {
    pub data1: u32,
    pub data2: u16,
    pub data3: u16,
    pub data4: [u8; 8],
}

/// The canonical text of an identifier: lower-case base sixteen in groups of
/// 8, 4, 4, 4 and 12 digits, with hyphens between them.
pub open spec fn uuid_text(g: Guid) -> Seq<char> {
    hex_text(g.data1 as nat, 8, false) + seq!['-'] + hex_text(g.data2 as nat, 4, false) + seq!['-']
        + hex_text(g.data3 as nat, 4, false) + seq!['-'] + hex_text(g.data4[0] as nat, 2, false)
        + hex_text(g.data4[1] as nat, 2, false) + seq!['-'] + hex_text(g.data4[2] as nat, 2, false)
        + hex_text(g.data4[3] as nat, 2, false) + hex_text(g.data4[4] as nat, 2, false) + hex_text(
        g.data4[5] as nat,
        2,
        false,
    ) + hex_text(g.data4[6] as nat, 2, false) + hex_text(g.data4[7] as nat, 2, false)
}

/// The canonical text of an identifier has 36 characters: hyphens after 8,
/// 12, 16 and 20 digits, and lower-case digits of base sixteen everywhere
/// else.
pub proof fn uuid_text_is_canonical(g: Guid)
    ensures
        uuid_text(g).len() == 36,
        forall|i: int|
            0 <= i < 36 ==> if i == 8 || i == 13 || i == 18 || i == 23 {
                #[trigger] uuid_text(g)[i] == '-'
            } else {
                is_hex_digit(#[trigger] uuid_text(g)[i], false)
            },
{
    reveal_with_fuel(sixteen_to, 9);
    let a = hex_text(g.data1 as nat, 8, false);
    let b = hex_text(g.data2 as nat, 4, false);
    let c = hex_text(g.data3 as nat, 4, false);
    let d0 = hex_text(g.data4[0] as nat, 2, false);
    let d1 = hex_text(g.data4[1] as nat, 2, false);
    let d2 = hex_text(g.data4[2] as nat, 2, false);
    let d3 = hex_text(g.data4[3] as nat, 2, false);
    let d4 = hex_text(g.data4[4] as nat, 2, false);
    let d5 = hex_text(g.data4[5] as nat, 2, false);
    let d6 = hex_text(g.data4[6] as nat, 2, false);
    let d7 = hex_text(g.data4[7] as nat, 2, false);
    hex_text_shape(g.data1 as nat, 8, false);
    hex_text_shape(g.data2 as nat, 4, false);
    hex_text_shape(g.data3 as nat, 4, false);
    hex_text_shape(g.data4[0] as nat, 2, false);
    hex_text_shape(g.data4[1] as nat, 2, false);
    hex_text_shape(g.data4[2] as nat, 2, false);
    hex_text_shape(g.data4[3] as nat, 2, false);
    hex_text_shape(g.data4[4] as nat, 2, false);
    hex_text_shape(g.data4[5] as nat, 2, false);
    hex_text_shape(g.data4[6] as nat, 2, false);
    hex_text_shape(g.data4[7] as nat, 2, false);
    let t = uuid_text(g);
    assert(t.len() == 36);
    assert forall|i: int| 0 <= i < 36 implies if i == 8 || i == 13 || i == 18 || i == 23 {
        #[trigger] t[i] == '-'
    } else {
        is_hex_digit(#[trigger] t[i], false)
    } by {
        if i < 8 {
            assert(t[i] == a[i]);
        } else if i == 8 {
        } else if i < 13 {
            assert(t[i] == b[i - 9]);
        } else if i == 13 {
        } else if i < 18 {
            assert(t[i] == c[i - 14]);
        } else if i == 18 {
        } else if i < 21 {
            assert(t[i] == d0[i - 19]);
        } else if i < 23 {
            assert(t[i] == d1[i - 21]);
        } else if i == 23 {
        } else if i < 26 {
            assert(t[i] == d2[i - 24]);
        } else if i < 28 {
            assert(t[i] == d3[i - 26]);
        } else if i < 30 {
            assert(t[i] == d4[i - 28]);
        } else if i < 32 {
            assert(t[i] == d5[i - 30]);
        } else if i < 34 {
            assert(t[i] == d6[i - 32]);
        } else {
            assert(t[i] == d7[i - 34]);
        }
    }
}

/// Writes an identifier in its canonical text.
pub fn format_uuid(g: &Guid) -> (out: String)
    ensures
        out@ == uuid_text(*g),
{
    proof {
        reveal_strlit("-");
        assert("-"@ =~= seq!['-']);
    }
    let mut out = String::new();
    assert(out@ + hex_text(g.data1 as nat, 8, false) =~= hex_text(g.data1 as nat, 8, false));
    push_hex(&mut out, g.data1 as u64, 8, false);
    out.append("-");
    push_hex(&mut out, g.data2 as u64, 4, false);
    out.append("-");
    push_hex(&mut out, g.data3 as u64, 4, false);
    out.append("-");
    push_hex(&mut out, g.data4[0] as u64, 2, false);
    push_hex(&mut out, g.data4[1] as u64, 2, false);
    out.append("-");
    push_hex(&mut out, g.data4[2] as u64, 2, false);
    push_hex(&mut out, g.data4[3] as u64, 2, false);
    push_hex(&mut out, g.data4[4] as u64, 2, false);
    push_hex(&mut out, g.data4[5] as u64, 2, false);
    push_hex(&mut out, g.data4[6] as u64, 2, false);
    push_hex(&mut out, g.data4[7] as u64, 2, false);
    out
}

/// Begins a discovery. It needs a connected device: the result is the device
/// whose services the caller asks the transport for.
pub fn discover_services(state: &PluginState) -> (device: Result<Handle, SessionError>)
    ensures
        device == match state.device {
            Some(d) => Ok::<Handle, SessionError>(d),
            None => Err(SessionError::NotConnected),
        },
{
    match state.device {
        Some(d) => Ok(d),
        None => Err(SessionError::NotConnected),
    }
}

/// Judges the status of the query for services. Any status but success ends
/// the discovery with an error. After success the caller hands each service
/// to `service_found`.
pub fn services_listed(status: Result<GattStatus, i32>) -> (outcome: Result<(), SessionError>)
    ensures
        outcome == completed(status, SessionError::ServiceQueryFailed),
{
    check_completed(status, SessionError::ServiceQueryFailed)
}

/// One thing that a discovery finds, with the handle that stands for it.
#[derive(Clone, Copy, Debug, PartialEq, Eq)]
pub enum Found {
    Service { id: Guid, handle: Handle },
    Characteristic { id: Guid, handle: Handle },
}

/// The kind under which a found thing is reported.
pub open spec fn found_kind(item: Found) -> i32 {
    match item {
        Found::Service { .. } => KIND_SERVICE,
        Found::Characteristic { .. } => KIND_CHARACTERISTIC,
    }
}

/// The canonical identifier under which a found thing is recorded and
/// reported.
pub open spec fn found_text(item: Found) -> Seq<char> {
    match item {
        Found::Service { id, .. } => uuid_text(id),
        Found::Characteristic { id, .. } => uuid_text(id),
    }
}

/// The state after one thing was found: a service is recorded among the
/// services, a characteristic among the characteristics, each under its
/// canonical identifier.
pub open spec fn found_state(s: StateView, item: Found) -> StateView {
    match item {
        Found::Service { id, handle } => StateView {
            services: inserted(s.services, uuid_text(id), handle),
            ..s
        },
        Found::Characteristic { id, handle } => StateView {
            characteristics: inserted(s.characteristics, uuid_text(id), handle),
            ..s
        },
    }
}

/// The state after a discovery found `items`, one after the other.
pub open spec fn walked_state(s: StateView, items: Seq<Found>) -> StateView
    decreases items.len(),
{
    if items.len() == 0 {
        s
    } else {
        found_state(walked_state(s, items.drop_last()), items.last())
    }
}

/// Records a discovered service under its canonical identifier and reports
/// it.
pub fn service_found(
    state: &mut PluginState,
    handler: ServiceDiscoveredHandler,
    id: &Guid,
    service: Handle,
) -> (call: Option<ServiceDiscoveredCall>)
    ensures
        final(state)@ == found_state(old(state)@, Found::Service { id: *id, handle: service }),
        is_service_discovered_call(call, handler, KIND_SERVICE, uuid_text(*id)),
        valid(final(state)@),
{
    state.validity();
    let uuid = format_uuid(id);
    state.services.insert(uuid.clone(), service);
    invoke_service_discovered(handler, KIND_SERVICE, uuid.as_str())
}

/// Judges the status of the query for the characteristics of one service:
/// whether there are characteristics to hand to `characteristic_found`. A
/// status other than success skips the service, which is no error; only an
/// error that the transport raised ends the discovery.
pub fn characteristics_listed(status: Result<GattStatus, i32>) -> (walk: Result<bool, SessionError>)
    ensures
        walk == match status {
            Ok(GattStatus::Success) => Ok::<bool, SessionError>(true),
            Ok(_) => Ok(false),
            Err(code) => Err(SessionError::Transport(code)),
        },
{
    match status {
        Ok(GattStatus::Success) => Ok(true),
        Ok(_) => Ok(false),
        Err(code) => Err(SessionError::Transport(code)),
    }
}

/// Whether a canonical identifier is that of the telemetry characteristic.
pub fn is_telemetry(key: &str) -> (r: bool)
    ensures
        r == (key@ == TELEMETRY_UUID@),
{
    same_text(key, TELEMETRY_UUID)
}

/// What follows the discovery of one characteristic.
#[derive(Debug, PartialEq, Eq)]
pub struct CharacteristicFound {
    /// The call that reports it.
    pub call: Option<ServiceDiscoveredCall>,
    /// Its canonical identifier.
    pub uuid: String,
    /// Whether the caller now subscribes to it and hands the outcome to
    /// `telemetry_subscribed`.
    pub subscribe: bool,
}

/// Records a discovered characteristic under its canonical identifier and
/// reports it. The telemetry characteristic is subscribed to at once.
pub fn characteristic_found(
    state: &mut PluginState,
    handler: ServiceDiscoveredHandler,
    id: &Guid,
    characteristic: Handle,
) -> (found: CharacteristicFound)
    ensures
        final(state)@ == found_state(
            old(state)@,
            Found::Characteristic { id: *id, handle: characteristic },
        ),
        is_service_discovered_call(found.call, handler, KIND_CHARACTERISTIC, uuid_text(*id)),
        found.uuid@ == uuid_text(*id),
        found.subscribe == (lowercase_of(uuid_text(*id)) == TELEMETRY_UUID@),
        valid(final(state)@),
{
    state.validity();
    let uuid = format_uuid(id);
    state.characteristics.insert(uuid.clone(), characteristic);
    let call = invoke_service_discovered(handler, KIND_CHARACTERISTIC, uuid.as_str());
    let key = to_lowercase(uuid.as_str());
    let subscribe = is_telemetry(key.as_str());
    CharacteristicFound { call, uuid, subscribe }
}

/// Takes the outcome of the subscription that a discovery starts by itself.
/// The subscription is an attempt: whether it succeeded or failed, the
/// discovery goes on, and no failure of it is handed on.
pub fn telemetry_subscribed(outcome: Result<(), SessionError>) -> (walk: Result<(), SessionError>)
    ensures
        walk == Ok::<(), SessionError>(()),
{
    Ok(())
}

/// The canonical form of an identifier as a caller spells it: its lower-case
/// form.
pub fn canonical(uuid: &str) -> (key: String)
    ensures
        key@ == lowercase_of(uuid@),
{
    to_lowercase(uuid)
}

/// The characteristic recorded under a canonical identifier.
pub open spec fn characteristic_of(s: StateView, key: Seq<char>) -> Result<Handle, SessionError> {
    match lookup(s.characteristics, key) {
        Some(c) => Ok(c),
        None => Err(SessionError::CharacteristicNotFound),
    }
}

/// Finds the characteristic recorded under a canonical identifier.
pub fn find_characteristic(state: &PluginState, key: &str) -> (found: Result<Handle, SessionError>)
    ensures
        found == characteristic_of(state@, key@),
{
    match state.characteristics.get(key) {
        Some(c) => Ok(*c),
        None => Err(SessionError::CharacteristicNotFound),
    }
}

/// Begins a read: the characteristic to read from, found under the lower-case
/// form of `uuid`.
pub fn read_characteristic(state: &PluginState, uuid: &str) -> (found: Result<Handle, SessionError>)
    ensures
        found == characteristic_of(state@, lowercase_of(uuid@)),
{
    let key = to_lowercase(uuid);
    find_characteristic(state, key.as_str())
}

/// Judges the status of a read. Only after success is there a value to take
/// and to hand to `value_read`.
pub fn read_completed(status: Result<GattStatus, i32>) -> (outcome: Result<(), SessionError>)
    ensures
        outcome == completed(status, SessionError::ReadFailed),
{
    check_completed(status, SessionError::ReadFailed)
}

/// Takes the bytes of a value that was read, or the error with which the
/// transport refused to hand them over.
pub fn value_read(value: Result<Vec<u8>, i32>) -> (data: Result<Vec<u8>, SessionError>)
    ensures
        data == transported(value),
{
    from_transport(value)
}

/// What a write asks of the caller: hand all of `data` to `characteristic`
/// in one operation.
#[derive(Debug, PartialEq, Eq)]
pub struct WritePlan<'a> {
    pub characteristic: Handle,
    pub data: &'a [u8],
}

/// Whether `plan` is the answer to a write of `data` to the canonical
/// identifier `key` in state `s`.
pub open spec fn is_write_plan(
    plan: Result<WritePlan, SessionError>,
    s: StateView,
    key: Seq<char>,
    data: Seq<u8>,
) -> bool {
    match lookup(s.characteristics, key) {
        Some(c) => plan is Ok && plan->Ok_0.characteristic == c && plan->Ok_0.data@ == data,
        None => plan == Err::<WritePlan, SessionError>(SessionError::CharacteristicNotFound),
    }
}

/// Begins a write: the characteristic to write to, found under the lower-case
/// form of `uuid`, and the bytes to hand it, which are all of `data` in one
/// piece whatever their number.
pub fn write_characteristic<'a>(state: &PluginState, uuid: &str, data: &'a [u8]) -> (plan: Result<
    WritePlan<'a>,
    SessionError,
>)
    ensures
        is_write_plan(plan, state@, lowercase_of(uuid@), data@),
{
    let key = to_lowercase(uuid);
    match find_characteristic(state, key.as_str()) {
        Ok(characteristic) => Ok(WritePlan { characteristic, data }),
        Err(e) => Err(e),
    }
}

/// Takes the outcome of handing the bytes to the transport.
pub fn write_started(started: Result<(), i32>) -> (outcome: Result<(), SessionError>)
    ensures
        outcome == transported(started),
{
    from_transport(started)
}

/// What subscribing asks of the caller.
#[derive(Debug, PartialEq, Eq)]
pub enum Subscription {
    /// The characteristic is subscribed to already: nothing is left to do.
    AlreadyActive,
    /// Notifications are to be turned on for `characteristic` and a listener
    /// installed; `key` goes back to `notification_enabled` with the outcome.
    Configure { characteristic: Handle, key: String },
}

/// Whether `step` is the answer to a request to subscribe to the canonical
/// identifier `key` in state `s`.
pub open spec fn is_subscription_for(
    step: Result<Subscription, SessionError>,
    s: StateView,
    key: Seq<char>,
) -> bool {
    if lookup(s.notification_handlers, key) is Some {
        step is Ok && step->Ok_0 is AlreadyActive
    } else {
        match lookup(s.characteristics, key) {
            Some(c) => {
                &&& step is Ok
                &&& step->Ok_0 is Configure
                &&& step->Ok_0->characteristic == c
                &&& step->Ok_0->key@ == key
            },
            None => step == Err::<Subscription, SessionError>(SessionError::CharacteristicNotFound),
        }
    }
}

/// Answers a request to subscribe to a canonical identifier: nothing to do
/// while subscribed, an error for an unknown characteristic, and otherwise
/// the characteristic to configure.
pub fn subscription_for(state: &PluginState, key: String) -> (step: Result<
    Subscription,
    SessionError,
>)
    ensures
        is_subscription_for(step, state@, key@),
{
    if state.notification_handlers.contains_key(key.as_str()) {
        return Ok(Subscription::AlreadyActive);
    }
    match state.characteristics.get(key.as_str()) {
        Some(c) => Ok(Subscription::Configure { characteristic: *c, key }),
        None => Err(SessionError::CharacteristicNotFound),
    }
}

/// Begins a subscription to the characteristic under the lower-case form of
/// `uuid`.
pub fn enable_notification(state: &PluginState, uuid: &str) -> (step: Result<
    Subscription,
    SessionError,
>)
    ensures
        is_subscription_for(step, state@, lowercase_of(uuid@)),
{
    let key = to_lowercase(uuid);
    subscription_for(state, key)
}

/// Judges the status of the descriptor write that turns notifications on.
pub fn notification_configured(status: Result<GattStatus, i32>) -> (outcome: Result<
    (),
    SessionError,
>)
    ensures
        outcome == completed(status, SessionError::EnableNotificationFailed),
{
    check_completed(status, SessionError::EnableNotificationFailed)
}

/// The state once `listener` listens to the characteristic under `key`.
pub open spec fn subscribed_state(s: StateView, key: Seq<char>, listener: Handle) -> StateView {
    StateView { notification_handlers: inserted(s.notification_handlers, key, listener), ..s }
}

/// Takes the outcome of installing the value-change listener. With a
/// listener the characteristic under `key` counts as subscribed; with an
/// error nothing changes and the error is handed on.
pub fn notification_enabled(state: &mut PluginState, key: String, installed: Result<Handle, i32>)
    -> (outcome: Result<(), SessionError>)
    ensures
        match installed {
            Ok(listener) => outcome == Ok::<(), SessionError>(()) && final(state)@
                == subscribed_state(old(state)@, key@, listener),
            Err(code) => outcome == Err::<(), SessionError>(SessionError::Transport(code))
                && final(state)@ == old(state)@,
        },
        valid(final(state)@),
{
    state.validity();
    match installed {
        Ok(listener) => {
            state.notification_handlers.insert(key, listener);
            Ok(())
        },
        Err(code) => Err(SessionError::Transport(code)),
    }
}

/// What unsubscribing asks of the caller: turn notifications off for
/// `characteristic`, then hand `key` and the status to
/// `notification_disabled`.
#[derive(Debug, PartialEq, Eq)]
pub struct Unsubscription {
    pub characteristic: Handle,
    pub key: String,
}

/// Whether `step` is the answer to a request to unsubscribe from the
/// canonical identifier `key` in state `s`.
pub open spec fn is_unsubscription_for(
    step: Result<Unsubscription, SessionError>,
    s: StateView,
    key: Seq<char>,
) -> bool {
    match lookup(s.characteristics, key) {
        Some(c) => step is Ok && step->Ok_0.characteristic == c && step->Ok_0.key@ == key,
        None => step == Err::<Unsubscription, SessionError>(SessionError::CharacteristicNotFound),
    }
}

/// Answers a request to unsubscribe from a canonical identifier. Whether the
/// characteristic is subscribed to plays no part: only an unknown
/// characteristic is an error.
pub fn unsubscription_for(state: &PluginState, key: String) -> (step: Result<
    Unsubscription,
    SessionError,
>)
    ensures
        is_unsubscription_for(step, state@, key@),
{
    match state.characteristics.get(key.as_str()) {
        Some(c) => Ok(Unsubscription { characteristic: *c, key }),
        None => Err(SessionError::CharacteristicNotFound),
    }
}

/// Begins the end of a subscription to the characteristic under the
/// lower-case form of `uuid`.
pub fn disable_notification(state: &PluginState, uuid: &str) -> (step: Result<
    Unsubscription,
    SessionError,
>)
    ensures
        is_unsubscription_for(step, state@, lowercase_of(uuid@)),
{
    let key = to_lowercase(uuid);
    unsubscription_for(state, key)
}

/// The state once the characteristic under `key` is no longer subscribed to.
pub open spec fn unsubscribed_state(s: StateView, key: Seq<char>) -> StateView {
    StateView { notification_handlers: removed(s.notification_handlers, key), ..s }
}

/// Takes the status of the descriptor write that turns notifications off.
/// After success the subscription under `key` is gone and the result is its
/// listener, for the caller to drop; after anything else nothing changes and
/// the error is handed on.
pub fn notification_disabled(state: &mut PluginState, key: &str, status: Result<GattStatus, i32>)
    -> (outcome: Result<Option<Handle>, SessionError>)
    ensures
        match completed(status, SessionError::DisableNotificationFailed) {
            Ok(_) => outcome == Ok::<Option<Handle>, SessionError>(
                lookup(old(state)@.notification_handlers, key@),
            ) && final(state)@ == unsubscribed_state(old(state)@, key@),
            Err(e) => outcome == Err::<Option<Handle>, SessionError>(e) && final(state)@ == old(
                state,
            )@,
        },
        valid(final(state)@),
{
    state.validity();
    match check_completed(status, SessionError::DisableNotificationFailed) {
        Ok(_) => Ok(state.notification_handlers.remove(key)),
        Err(e) => Err(e),
    }
}

/// Takes a changed value of the characteristic `uuid` and reports it. A
/// value that the transport could not hand over is not reported.
pub fn handle_value_changed(state: &PluginState, uuid: &str, value: Option<&[u8]>) -> (call:
    Option<ValueChangedCall>)
    ensures
        match value {
            Some(bytes) => is_value_changed_call(call, state.value_changed_handler, uuid@, bytes@),
            None => call is None,
        },
{
    match value {
        Some(bytes) => invoke_value_changed(state.value_changed_handler, uuid, bytes),
        None => None,
    }
}

/// Identifiers are told apart by their lower-case form alone. A lookup
/// succeeds exactly when a characteristic is recorded under the lower-case
/// form of the identifier, and two spellings with one lower-case form get the
/// same answer from every operation.
pub proof fn lookups_ignore_case(s: StateView, a: Seq<char>, b: Seq<char>)
    requires
        lowercase_of(a) == lowercase_of(b),
    ensures
        characteristic_of(s, lowercase_of(a)) is Ok <==> exists|i: int|
            0 <= i < s.characteristics.len() && (#[trigger] s.characteristics[i]).0 == lowercase_of(
                a,
            ),
        characteristic_of(s, lowercase_of(a)) == characteristic_of(s, lowercase_of(b)),
        forall|step: Result<Subscription, SessionError>|
            is_subscription_for(step, s, lowercase_of(a)) == is_subscription_for(
                step,
                s,
                lowercase_of(b),
            ),
        forall|step: Result<Unsubscription, SessionError>|
            is_unsubscription_for(step, s, lowercase_of(a)) == is_unsubscription_for(
                step,
                s,
                lowercase_of(b),
            ),
        forall|plan: Result<WritePlan, SessionError>, data: Seq<u8>|
            is_write_plan(plan, s, lowercase_of(a), data) == is_write_plan(
                plan,
                s,
                lowercase_of(b),
                data,
            ),
{
    find_key_is_first(s.characteristics, lowercase_of(a));
}

/// A discovery touches the services and the characteristics only, and keeps
/// the state valid.
pub proof fn a_walk_touches_only_what_it_finds(s: StateView, items: Seq<Found>)
    requires
        valid(s),
    ensures
        valid(walked_state(s, items)),
        walked_state(s, items) == (StateView {
            services: walked_state(s, items).services,
            characteristics: walked_state(s, items).characteristics,
            ..s
        }),
    decreases items.len(),
{
    if items.len() > 0 {
        let before = walked_state(s, items.drop_last());
        a_walk_touches_only_what_it_finds(s, items.drop_last());
        match items.last() {
            Found::Service { id, handle } => {
                inserted_then_lookup(before.services, uuid_text(id), handle, uuid_text(id));
            },
            Found::Characteristic { id, handle } => {
                inserted_then_lookup(before.characteristics, uuid_text(id), handle, uuid_text(id));
            },
        }
    }
}

/// A discovery records everything that it finds: after it, each service that
/// was found is among the services and each characteristic among the
/// characteristics, under its canonical identifier. Each is reported under
/// its kind, a service as a service and a characteristic as a
/// characteristic, in the step in which it is found, so the reports come in
/// the order of the finds.
pub proof fn a_walk_records_what_it_finds(s: StateView, items: Seq<Found>, i: int)
    requires
        valid(s),
        0 <= i < items.len(),
    ensures
        match items[i] {
            Found::Service { id, handle } => {
                &&& lookup(walked_state(s, items).services, uuid_text(id)) is Some
                &&& found_kind(items[i]) == KIND_SERVICE
            },
            Found::Characteristic { id, handle } => {
                &&& lookup(walked_state(s, items).characteristics, uuid_text(id)) is Some
                &&& found_kind(items[i]) == KIND_CHARACTERISTIC
            },
        },
    decreases items.len(),
{
    let earlier = items.drop_last();
    let before = walked_state(s, earlier);
    a_walk_touches_only_what_it_finds(s, earlier);
    if i < items.len() - 1 {
        assert(earlier[i] == items[i]);
        a_walk_records_what_it_finds(s, earlier, i);
    }
    match items.last() {
        Found::Service { id, handle } => {
            inserted_then_lookup(before.services, uuid_text(id), handle, found_text(items[i]));
        },
        Found::Characteristic { id, handle } => {
            inserted_then_lookup(
                before.characteristics,
                uuid_text(id),
                handle,
                found_text(items[i]),
            );
        },
    }
}

/// The handle recorded for an identifier is the one of the last find of it:
/// where nothing that was found later has the kind and the identifier of the
/// find at `i`, the handle of that find is what a lookup gives.
pub proof fn the_last_find_of_an_identifier_is_kept(s: StateView, items: Seq<Found>, i: int)
    requires
        valid(s),
        0 <= i < items.len(),
        forall|j: int|
            i < j < items.len() ==> !(found_kind(#[trigger] items[j]) == found_kind(items[i])
                && found_text(items[j]) == found_text(items[i])),
    ensures
        match items[i] {
            Found::Service { id, handle } => lookup(
                walked_state(s, items).services,
                uuid_text(id),
            ) == Some(handle),
            Found::Characteristic { id, handle } => lookup(
                walked_state(s, items).characteristics,
                uuid_text(id),
            ) == Some(handle),
        },
    decreases items.len(),
{
    let earlier = items.drop_last();
    let before = walked_state(s, earlier);
    a_walk_touches_only_what_it_finds(s, earlier);
    if i < items.len() - 1 {
        assert(earlier[i] == items[i]);
        assert forall|j: int| i < j < earlier.len() implies !(found_kind(#[trigger] earlier[j])
            == found_kind(earlier[i]) && found_text(earlier[j]) == found_text(earlier[i])) by {
            assert(earlier[j] == items[j]);
        }
        the_last_find_of_an_identifier_is_kept(s, earlier, i);
        let last = items[items.len() - 1];
        assert(!(found_kind(last) == found_kind(items[i]) && found_text(last) == found_text(
            items[i],
        )));
    }
    match items.last() {
        Found::Service { id, handle } => {
            inserted_then_lookup(before.services, uuid_text(id), handle, found_text(items[i]));
        },
        Found::Characteristic { id, handle } => {
            inserted_then_lookup(
                before.characteristics,
                uuid_text(id),
                handle,
                found_text(items[i]),
            );
        },
    }
}

/// Subscribing a second time is subscribing once. After a subscription to
/// `key` the state is valid and holds one listener for it, the one that was
/// installed; a further request to subscribe is answered with success and
/// nothing to do, so the state stays as it is.
pub proof fn subscribing_twice_is_subscribing_once(
    s: StateView,
    key: Seq<char>,
    listener: Handle,
    again: Result<Subscription, SessionError>,
)
    requires
        valid(s),
    ensures
        ({
            let once = subscribed_state(s, key, listener);
            &&& valid(once)
            &&& lookup(once.notification_handlers, key) == Some(listener)
            &&& forall|i: int, j: int|
                0 <= i < once.notification_handlers.len() && 0 <= j
                    < once.notification_handlers.len() && (
                #[trigger] once.notification_handlers[i]).0 == key && (
                #[trigger] once.notification_handlers[j]).0 == key ==> i == j
            &&& is_subscription_for(again, once, key) ==> again is Ok && again->Ok_0 is AlreadyActive
        }),
{
    inserted_then_lookup(s.notification_handlers, key, listener, key);
}

/// Unsubscribing leaves no listener under the key and touches no other
/// subscription.
pub proof fn unsubscribing_removes_the_listener(s: StateView, key: Seq<char>, other: Seq<char>)
    requires
        valid(s),
    ensures
        valid(unsubscribed_state(s, key)),
        lookup(unsubscribed_state(s, key).notification_handlers, key) is None,
        other != key ==> lookup(unsubscribed_state(s, key).notification_handlers, other) == lookup(
            s.notification_handlers,
            other,
        ),
{
    removed_then_lookup(s.notification_handlers, key, other);
}

} // verus!
