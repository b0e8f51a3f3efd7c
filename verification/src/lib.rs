//! Core logic of a Bluetooth media-player watcher.
//!
//! The library contains the verified heart of a program that observes a
//! message bus for Bluetooth devices exposing a media-player object: the
//! address codec, the object-path recognizer, the keyed registry of open
//! property-change subscriptions, and the correlator state machine that
//! drives registry membership from discovery notifications.  All bus I/O
//! stays outside; the library works on plain values and handles.

pub mod address;
pub mod agent;
pub mod correlator;
pub mod paths;
pub mod player;
pub mod registry;

