//! An event multiplexer for a handheld device application: two producers
//! (key presses and a periodic heartbeat timer) feed one bounded queue of
//! self-contained event records, and a single consumer maps each event to
//! one notification effect, to nothing, or to the end of the session.
use vstd::prelude::*;

pub mod event;
pub mod dispatch;
pub mod session;
pub mod queue;
pub mod teardown;

verus! {

/// How many events the queue holds before producers have to wait.
pub const QUEUE_CAPACITY: usize = 8;

/// The heartbeat timer's period, in host ticks.
pub const HEARTBEAT_PERIOD: u32 = 1500;

} // verus!
