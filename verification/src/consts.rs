use vstd::prelude::*;

verus! {

/// Fixed pause between polling ticks, shared by the connection worker and the
/// supervisor loop.
pub const LOOP_PAUSE_MILLISECONDS: u64 = 250;

/// Capacity of each of the two directional queues between the connection
/// worker and the supervisor.
pub const MPSC_BUFFER_SIZE: usize = 128;

/// Seconds between outbound keepalive heartbeats.
pub const HEARTBEAT_INTERVAL: u64 = 30;

/// Seconds without an inbound frame after which the supervisor shuts down.
pub const DEADMAN_TIMEOUT: u64 = 120;

/// Number of characters in a rendered geocode label.
pub const GEOHASH_LENGTH: usize = 10;

} // verus!
