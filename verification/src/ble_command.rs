//! Commands accepted by the radio coordinator's inbound queue.

use vstd::prelude::*;

verus! {

/// A command for the radio coordinator. Only the coordinator's inbound
/// queue receives these.
#[derive(Debug, Clone, Copy, PartialEq, Eq)]
pub enum BleCommand {
    /// Start advertising; the pairing window closes by itself after
    /// `timeout_ms` milliseconds. A no-op while already advertising.
    StartAdvertise { timeout_ms: u32 },
    /// Stop advertising; a no-op while not advertising.
    StopAdvertise,
    /// Drop every connected peer.
    DisconnectAll,
    /// Ask for a `StatusResponse` snapshot of connection truth.
    GetStatus,
    /// Stop advertising, run disconnect cleanup, and terminate the task.
    Shutdown,
}

} // verus!
