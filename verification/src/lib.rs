//! State-synchronization and action-dispatch engine for a live terminal
//! monitor of wireless peripheral devices.
//!
//! A continuously polling driver owns the device registry and mutates it;
//! a rendering frontend observes immutable snapshots and emits commands.
//! The registry, the command set, the driver's per-tick state machine and
//! the two channels between driver and frontend are all verified here;
//! the wireless discovery protocol and the terminal drawing primitives are
//! supplied by outside collaborators and stay outside this library.

use vstd::prelude::*;

pub mod peripheral;
pub mod state;
pub mod action;
pub mod scan;
pub mod channel;
pub mod store;

verus! {

/// Capacity of the bounded command queue between frontend and driver.
pub const ACTION_QUEUE_CAPACITY: usize = 100;

} // verus!
