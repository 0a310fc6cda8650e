//! Session manager for a single Bluetooth Low Energy peripheral.
//!
//! The session scans for advertising devices, connects to one of them by
//! name, discovers its services and characteristics, and reads, writes and
//! subscribes to characteristics. This crate holds the session's state and
//! its rules; it performs no input or output itself.
//!
//! Every operation is split where it meets the transport. A function of this
//! crate takes the state and what is known so far, and answers with the next
//! step: a handle to call the transport with, a call of one of the host's
//! handlers to perform, or an error. The caller performs the step and hands
//! the outcome to the function that follows. The state is passed explicitly;
//! a caller that shares it between threads keeps it under one lock and
//! performs the handler calls after it has let the lock go.
//!
//! - [`state`]: the state, its lifecycle, and the flag that lets one
//!   discovery run at a time.
//! - [`watcher`]: scanning and the cache of discovered devices.
//! - [`device`]: resolving a name, connecting, disconnecting, and the
//!   connection state that is reported.
//! - [`gatt`]: discovery, reads, writes and subscriptions.
//! - [`boundary`]: which arguments are accepted at the call boundary, and the
//!   two-phase read protocol.
//! - [`callbacks`]: the calls of the host's handlers.
//! - [`text_map`]: the map from text keys to values that the state is made
//!   of.
//! - [`text`]: text comparison, UTF-16 and base-sixteen writing.
//! - [`error`]: the errors and the result codes.

pub mod boundary;
pub mod callbacks;
pub mod device;
pub mod error;
pub mod gatt;
pub mod state;
pub mod text;
pub mod text_map;
pub mod watcher;
