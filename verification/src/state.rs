//! The session's state: what is known of the scan, the connection, the
//! discovered services and characteristics, and the active subscriptions.
//!
//! Objects of the transport are held as handles: numbers that the caller
//! chose and by which it finds its own objects again. The session never looks
//! inside one.

use vstd::prelude::*;
use crate::callbacks::{
    ConnectionStateHandler,
    NotificationHandler,
    ScanResultHandler,
    ScanStateChangedHandler,
    ServiceDiscoveredHandler,
    ValueChangedHandler,
};
use crate::error::{CODE_FAILED, CODE_OK, SessionError, code_of};
use crate::text_map::{TextMap, distinct_keys};

verus! {

/// A number that stands for an object of the transport.
pub type Handle = u64;

/// The local name that the watcher's advertisement filter asks for.
pub const ADVERTISED_NAME: &'static str = "SquareGolf";

/// Battery level while none is known.
pub const UNKNOWN_BATTERY_LEVEL: i32 = -1;

/// Signal strength, in dBm, while none is known.
pub const UNKNOWN_SIGNAL_STRENGTH: i32 = -100;

/// Bytes read by a size probe, kept for the read that follows, with the
/// identity of the buffer that the probe was given.
#[derive(Debug, PartialEq, Eq)]
pub struct PendingRead {
    pub data: Vec<u8>,
    pub buffer: usize,
}

/// The state of the session.
#[derive(Debug)]
pub struct PluginState {
    pub initialized: bool,
    pub is_connected: bool,
    pub device_name: Option<String>,
    pub device_address: u64,
    pub battery_level: i32,
    pub signal_strength: i32,
    pub scan_result_handler: ScanResultHandler,
    pub scan_state_changed_handler: ScanStateChangedHandler,
    pub connection_state_handler: ConnectionStateHandler,
    pub service_discovered_handler: ServiceDiscoveredHandler,
    pub value_changed_handler: ValueChangedHandler,
    pub notification_handler: NotificationHandler,
    /// The advertisement watcher, once created.
    pub watcher: Option<Handle>,
    /// The connected device.
    pub device: Option<Handle>,
    /// Discovered services by identifier.
    pub services: TextMap<Handle>,
    /// Discovered characteristics by identifier.
    pub characteristics: TextMap<Handle>,
    /// The value-change listener of each subscribed characteristic.
    pub notification_handlers: TextMap<Handle>,
    /// The listener for advertisements, while scanning.
    pub watcher_handler: Option<Handle>,
    /// The listener for changes of the connection status.
    pub connection_status_handler: Option<Handle>,
    /// The address last seen for each advertised name.
    pub discovered_devices: TextMap<u64>,
    /// Size probes that wait for their read, by identifier.
    pub pending_reads: TextMap<PendingRead>,
}

/// The state of the session as mathematical values.
pub struct StateView {
    pub initialized: bool,
    pub is_connected: bool,
    pub device_name: Option<Seq<char>>,
    pub device_address: u64,
    pub battery_level: i32,
    pub signal_strength: i32,
    pub scan_result_handler: ScanResultHandler,
    pub scan_state_changed_handler: ScanStateChangedHandler,
    pub connection_state_handler: ConnectionStateHandler,
    pub service_discovered_handler: ServiceDiscoveredHandler,
    pub value_changed_handler: ValueChangedHandler,
    pub notification_handler: NotificationHandler,
    pub watcher: Option<Handle>,
    pub device: Option<Handle>,
    pub services: Seq<(Seq<char>, Handle)>,
    pub characteristics: Seq<(Seq<char>, Handle)>,
    pub notification_handlers: Seq<(Seq<char>, Handle)>,
    pub watcher_handler: Option<Handle>,
    pub connection_status_handler: Option<Handle>,
    pub discovered_devices: Seq<(Seq<char>, u64)>,
    pub pending_reads: Seq<(Seq<char>, PendingRead)>,
}

impl View for PluginState {
    type V = StateView;

    open spec fn view(&self) -> StateView {
        StateView {
            initialized: self.initialized,
            is_connected: self.is_connected,
            device_name: match self.device_name {
                Some(name) => Some(name@),
                None => None,
            },
            device_address: self.device_address,
            battery_level: self.battery_level,
            signal_strength: self.signal_strength,
            scan_result_handler: self.scan_result_handler,
            scan_state_changed_handler: self.scan_state_changed_handler,
            connection_state_handler: self.connection_state_handler,
            service_discovered_handler: self.service_discovered_handler,
            value_changed_handler: self.value_changed_handler,
            notification_handler: self.notification_handler,
            watcher: self.watcher,
            device: self.device,
            services: self.services@,
            characteristics: self.characteristics@,
            notification_handlers: self.notification_handlers@,
            watcher_handler: self.watcher_handler,
            connection_status_handler: self.connection_status_handler,
            discovered_devices: self.discovered_devices@,
            pending_reads: self.pending_reads@,
        }
    }
}

/// What holds of every state: in each of its maps no key occurs twice.
pub open spec fn valid(s: StateView) -> bool {
    &&& distinct_keys(s.services)
    &&& distinct_keys(s.characteristics)
    &&& distinct_keys(s.notification_handlers)
    &&& distinct_keys(s.discovered_devices)
    &&& distinct_keys(s.pending_reads)
}

/// The state before anything happened: not initialized, not connected, no
/// handler, nothing discovered.
pub open spec fn initial_state() -> StateView {
    StateView {
        initialized: false,
        is_connected: false,
        device_name: None,
        device_address: 0,
        battery_level: UNKNOWN_BATTERY_LEVEL,
        signal_strength: UNKNOWN_SIGNAL_STRENGTH,
        scan_result_handler: None,
        scan_state_changed_handler: None,
        connection_state_handler: None,
        service_discovered_handler: None,
        value_changed_handler: None,
        notification_handler: None,
        watcher: None,
        device: None,
        services: Seq::empty(),
        characteristics: Seq::empty(),
        notification_handlers: Seq::empty(),
        watcher_handler: None,
        connection_status_handler: None,
        discovered_devices: Seq::empty(),
        pending_reads: Seq::empty(),
    }
}

/// The state after a reset: what belongs to a connection, the scan results
/// and the pending reads are gone; the handlers, the watcher and whether the
/// session is initialized stay.
pub open spec fn reset_state(s: StateView) -> StateView {
    StateView {
        is_connected: false,
        device_name: None,
        device_address: 0,
        battery_level: UNKNOWN_BATTERY_LEVEL,
        signal_strength: UNKNOWN_SIGNAL_STRENGTH,
        device: None,
        services: Seq::empty(),
        characteristics: Seq::empty(),
        notification_handlers: Seq::empty(),
        connection_status_handler: None,
        discovered_devices: Seq::empty(),
        pending_reads: Seq::empty(),
        ..s
    }
}

/// The state after the session is shut down: the initial state, but for the
/// registered handlers, which stay.
pub open spec fn cleaned_state(s: StateView) -> StateView {
    StateView {
        scan_result_handler: s.scan_result_handler,
        scan_state_changed_handler: s.scan_state_changed_handler,
        connection_state_handler: s.connection_state_handler,
        service_discovered_handler: s.service_discovered_handler,
        value_changed_handler: s.value_changed_handler,
        notification_handler: s.notification_handler,
        ..initial_state()
    }
}

/// The state once the watcher exists.
pub open spec fn initialized_state(s: StateView, watcher: Handle) -> StateView {
    StateView { watcher: Some(watcher), initialized: true, ..s }
}

impl PluginState {
    /// States that this state is valid. It computes nothing.
    pub fn validity(&self)
        ensures
            valid(self@),
    {
        self.services.keys_are_distinct();
        self.characteristics.keys_are_distinct();
        self.notification_handlers.keys_are_distinct();
        self.discovered_devices.keys_are_distinct();
        self.pending_reads.keys_are_distinct();
    }

    /// The state before anything happened.
    pub fn new() -> (state: Self)
        ensures
            state@ == initial_state(),
            valid(state@),
    {
        PluginState {
            initialized: false,
            is_connected: false,
            device_name: None,
            device_address: 0,
            battery_level: UNKNOWN_BATTERY_LEVEL,
            signal_strength: UNKNOWN_SIGNAL_STRENGTH,
            scan_result_handler: None,
            scan_state_changed_handler: None,
            connection_state_handler: None,
            service_discovered_handler: None,
            value_changed_handler: None,
            notification_handler: None,
            watcher: None,
            device: None,
            services: TextMap::new(),
            characteristics: TextMap::new(),
            notification_handlers: TextMap::new(),
            watcher_handler: None,
            connection_status_handler: None,
            discovered_devices: TextMap::new(),
            pending_reads: TextMap::new(),
        }
    }

    /// Forgets the connection, the scan results and the pending reads.
    pub fn reset(&mut self)
        ensures
            final(self)@ == reset_state(old(self)@),
            valid(final(self)@),
    {
        self.is_connected = false;
        self.device_name = None;
        self.device_address = 0;
        self.battery_level = UNKNOWN_BATTERY_LEVEL;
        self.signal_strength = UNKNOWN_SIGNAL_STRENGTH;
        self.device = None;
        self.services.clear();
        self.characteristics.clear();
        self.notification_handlers.clear();
        self.connection_status_handler = None;
        self.discovered_devices.clear();
        self.pending_reads.clear();
    }

    /// Registers the handler for scan results in place of the one before.
    pub fn set_scan_result_handler(&mut self, handler: ScanResultHandler) -> (code: i32)
        ensures
            final(self)@ == (StateView { scan_result_handler: handler, ..old(self)@ }),
            valid(final(self)@),
            code == CODE_OK,
    {
        self.validity();
        self.scan_result_handler = handler;
        CODE_OK
    }

    /// Registers the handler for changes of the scan state in place of the
    /// one before.
    pub fn set_scan_state_changed_handler(&mut self, handler: ScanStateChangedHandler) -> (code:
        i32)
        ensures
            final(self)@ == (StateView { scan_state_changed_handler: handler, ..old(self)@ }),
            valid(final(self)@),
            code == CODE_OK,
    {
        self.validity();
        self.scan_state_changed_handler = handler;
        CODE_OK
    }

    /// Registers the handler for changes of the connection state in place of
    /// the one before.
    pub fn set_connection_state_handler(&mut self, handler: ConnectionStateHandler) -> (code: i32)
        ensures
            final(self)@ == (StateView { connection_state_handler: handler, ..old(self)@ }),
            valid(final(self)@),
            code == CODE_OK,
    {
        self.validity();
        self.connection_state_handler = handler;
        CODE_OK
    }

    /// Registers the handler for discovered services and characteristics in
    /// place of the one before.
    pub fn set_service_discovered_handler(&mut self, handler: ServiceDiscoveredHandler) -> (code:
        i32)
        ensures
            final(self)@ == (StateView { service_discovered_handler: handler, ..old(self)@ }),
            valid(final(self)@),
            code == CODE_OK,
    {
        self.validity();
        self.service_discovered_handler = handler;
        CODE_OK
    }

    /// Registers the handler for changed characteristic values in place of
    /// the one before.
    pub fn set_value_changed_handler(&mut self, handler: ValueChangedHandler) -> (code: i32)
        ensures
            final(self)@ == (StateView { value_changed_handler: handler, ..old(self)@ }),
            valid(final(self)@),
            code == CODE_OK,
    {
        self.validity();
        self.value_changed_handler = handler;
        CODE_OK
    }

    /// Registers the handler for generic notifications in place of the one
    /// before.
    pub fn set_notification_handler(&mut self, handler: NotificationHandler) -> (code: i32)
        ensures
            final(self)@ == (StateView { notification_handler: handler, ..old(self)@ }),
            valid(final(self)@),
            code == CODE_OK,
    {
        self.validity();
        self.notification_handler = handler;
        CODE_OK
    }
}

/// What opening the session asks of the caller.
#[derive(Clone, Copy, Debug, PartialEq, Eq, Structural)]
pub enum Startup {
    /// The session is initialized already: nothing is left to do.
    Ready,
    /// The watcher is to be created, with a filter on the advertised local
    /// name `ADVERTISED_NAME`, and reported to `watcher_created`.
    CreateWatcher,
}

/// Opens the session: tells whether the watcher has to be created. Opening an
/// initialized session asks for nothing.
pub fn initialize(state: &PluginState) -> (step: Startup)
    ensures
        step == if state.initialized {
            Startup::Ready
        } else {
            Startup::CreateWatcher
        },
{
    if state.initialized {
        Startup::Ready
    } else {
        Startup::CreateWatcher
    }
}

/// Takes the outcome of creating the watcher. With a watcher the session is
/// initialized; with an error nothing changes and the error is handed on.
pub fn watcher_created(state: &mut PluginState, created: Result<Handle, i32>) -> (outcome: Result<
    (),
    SessionError,
>)
    ensures
        match created {
            Ok(watcher) => outcome == Ok::<(), SessionError>(()) && final(state)@
                == initialized_state(old(state)@, watcher),
            Err(code) => outcome == Err::<(), SessionError>(SessionError::Transport(code))
                && final(state)@ == old(state)@,
        },
        valid(final(state)@),
{
    state.validity();
    match created {
        Ok(watcher) => {
            state.watcher = Some(watcher);
            state.initialized = true;
            Ok(())
        },
        Err(code) => Err(SessionError::Transport(code)),
    }
}

/// Shuts the session down. Everything but the registered handlers returns to
/// the initial state. The result is the watcher that the caller has to stop,
/// if there was one.
pub fn cleanup(state: &mut PluginState) -> (stop: Option<Handle>)
    ensures
        stop == old(state).watcher,
        final(state)@ == cleaned_state(old(state)@),
        valid(final(state)@),
{
    let stop = state.watcher;
    state.watcher = None;
    state.watcher_handler = None;
    state.reset();
    state.initialized = false;
    stop
}

/// The flag that lets one discovery run at a time: set while one runs.
#[derive(Clone, Copy, Debug, PartialEq, Eq, Structural)]
pub struct DiscoveryFlag {
    pub in_progress: bool,
}

/// What a caller that asks for a discovery has to do.
#[derive(Clone, Copy, Debug, PartialEq, Eq, Structural)]
pub enum DiscoveryTurn {
    /// No discovery was running: this caller runs one and clears the flag
    /// when it has ended.
    Run,
    /// A discovery is running: this caller starts none and polls the flag
    /// until it is clear.
    Wait,
}

/// The turn of a caller that finds `flag`.
pub open spec fn turn_at(flag: DiscoveryFlag) -> DiscoveryTurn {
    if flag.in_progress {
        DiscoveryTurn::Wait
    } else {
        DiscoveryTurn::Run
    }
}

/// The flag after a caller asked for a discovery: set, whatever it was.
pub open spec fn entered(flag: DiscoveryFlag) -> DiscoveryFlag {
    DiscoveryFlag { in_progress: true }
}

/// The flag after the running discovery ended: clear.
pub open spec fn left(flag: DiscoveryFlag) -> DiscoveryFlag {
    DiscoveryFlag { in_progress: false }
}

/// What a waiting caller learns from `flag`: nothing while a discovery runs,
/// the success code once none does.
pub open spec fn released_at(flag: DiscoveryFlag) -> Option<i32> {
    if flag.in_progress {
        None
    } else {
        Some(CODE_OK)
    }
}

impl DiscoveryFlag {
    /// The flag with no discovery running.
    pub fn new() -> (flag: Self)
        ensures
            !flag.in_progress,
    {
        DiscoveryFlag { in_progress: false }
    }

    /// Asks for a discovery. Whoever asks leaves the flag set.
    pub fn enter(&mut self) -> (turn: DiscoveryTurn)
        ensures
            turn == turn_at(*old(self)),
            *final(self) == entered(*old(self)),
    {
        let was_running = self.in_progress;
        self.in_progress = true;
        if was_running {
            DiscoveryTurn::Wait
        } else {
            DiscoveryTurn::Run
        }
    }

    /// Asked by a waiting caller: `None` while the discovery runs, and the
    /// code to return, which is always success, once it has ended.
    pub fn poll(&self) -> (code: Option<i32>)
        ensures
            code == released_at(*self),
    {
        if self.in_progress {
            None
        } else {
            Some(CODE_OK)
        }
    }

    /// Ends the running discovery and gives the code for its outcome.
    pub fn leave<T>(&mut self, outcome: &Result<T, SessionError>) -> (code: i32)
        ensures
            *final(self) == left(*old(self)),
            code == code_of(*outcome),
    {
        self.in_progress = false;
        match outcome {
            Ok(_) => CODE_OK,
            Err(_) => CODE_FAILED,
        }
    }
}

/// One discovery runs at a time. A caller that finds the flag clear runs the
/// discovery. A second caller that asks while the first one runs is told to
/// wait, so it starts no discovery of its own; its asking changes nothing,
/// and it is not released while the first one runs. Once the first caller
/// has left, the second is released, with success.
pub proof fn discovery_runs_one_at_a_time(flag: DiscoveryFlag)
    requires
        !flag.in_progress,
    ensures
        turn_at(flag) == DiscoveryTurn::Run,
        turn_at(entered(flag)) == DiscoveryTurn::Wait,
        entered(entered(flag)) == entered(flag),
        released_at(entered(entered(flag))) is None,
        released_at(left(entered(entered(flag)))) == Some(CODE_OK),
{
}

/// A waiting caller is released exactly when no discovery runs.
pub proof fn waiting_ends_when_the_flag_clears(flag: DiscoveryFlag)
    ensures
        released_at(flag) is Some <==> !flag.in_progress,
        turn_at(flag) == DiscoveryTurn::Wait <==> flag.in_progress,
{
}

} // verus!
