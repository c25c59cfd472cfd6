//! Client-side liveness and command-dispatch core for an AMQP connection:
//! a background task that keeps the connection alive with periodic
//! heartbeats, serializes caller-issued commands onto the single protocol
//! state machine, and supports cooperative shutdown.

use vstd::prelude::*;

pub mod background;
pub mod client;
pub mod command;
pub mod connection;
pub mod error;
pub mod pulse;
pub mod queue;

verus! {

/// Capacity of the command queue created for a background task.
pub const QUEUE_CAPACITY: usize = 1024;

/// Heartbeat period, in seconds, of the reference configuration.
pub const HEARTBEAT_PERIOD_SECS: u64 = 60;

} // verus!
