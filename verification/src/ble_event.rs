//! Lifecycle events emitted by the radio coordinator.

use vstd::prelude::*;

verus! {

/// A state-change event emitted only by the radio coordinator.
#[derive(Debug, Clone, Copy, PartialEq, Eq)]
pub enum BleEvent {
    /// Advertising began; a pairing window is open.
    AdvertisingStarted,
    /// Advertising ended, by command, timeout, or shutdown.
    AdvertisingStopped,
    /// A peer connected.
    Connected,
    /// A peer disconnected; advertising is not restarted automatically.
    Disconnected,
    /// An adapter call failed.
    Error,
    /// A snapshot of connection truth, answering `GetStatus`.
    StatusResponse { connected: bool, advertising: bool, error: bool },
}

} // verus!
