//! Split input routing: capture raw events from kernel input devices and
//! re-emit them as synthetic input on a target display session, so that
//! several physical devices can drive independent graphical sessions on
//! one machine.
//!
//! The crate holds the engine's logic: device classification, the
//! per-device worker state machine, and the translation of raw events
//! into synthetic-input actions. The surrounding process (device capture,
//! display-server connections, virtual-device creation, threads) performs
//! the actions this library decides on.

pub mod codes;
pub mod strings;
pub mod classify;
pub mod devices;
pub mod keymap;
pub mod laws;
pub mod session;
pub mod translate;
pub mod types;
pub mod worker;
