//! Radio coordinator: owns the advertising and error flags and drives the
//! radio adapter.
//!
//! The coordinator holds no state beyond `initialized`, `advertising` and
//! `error`; connection truth is derived on demand from the adapter's
//! connected-peer count. The adapter itself — the real radio stack — sits
//! behind [`RadioAdapter`], implemented outside this crate by the hardware
//! glue and, in tests, by fakes. Nothing is assumed of an adapter call
//! beyond what its `Result` says; every contract here holds for every
//! outcome the adapter can produce.
//!
//! Policy for the ambiguous callback behaviours: a connect stops
//! advertising, a disconnect does not restart it, and the advertising flag
//! is cleared even when an adapter stop call fails — a stop racing a connect
//! is resolved last-write-wins, with both paths converging on
//! not-advertising.

use vstd::prelude::*;

use crate::ble_event::BleEvent;
use crate::ble_state::ConnState;
use crate::error::Error;

verus! {

/// The radio stack as the coordinator sees it. Implementations live outside
/// the crate (hardware glue, test fakes); no contract constrains them, so
/// everything proved here holds whatever they do.
pub trait RadioAdapter {
    /// One-time radio stack initialization: set up the service, the
    /// characteristic, the advertisement data, and the connect/disconnect
    /// callbacks.
    fn init(&mut self) -> Result<(), Error>;

    /// Begin broadcasting a discoverable presence.
    fn start_advertising(&mut self) -> Result<(), Error>;

    /// Stop broadcasting.
    fn stop_advertising(&mut self) -> Result<(), Error>;

    /// Drop every connected peer.
    fn disconnect_all(&mut self) -> Result<(), Error>;

    /// Number of peers currently connected.
    fn connected_count(&mut self) -> u32;
}

/// The coordinator's own state: whether the stack was initialized, whether
/// advertising is active, and whether the last adapter call failed.
#[derive(Debug, Clone, Copy, PartialEq, Eq)]
pub struct Ble {
    /// Whether the one-time radio initialization has completed.
    pub initialized: bool,
    /// Whether a discoverable presence is being broadcast.
    pub advertising: bool,
    /// Whether an adapter call failed without a later recovery.
    pub error: bool,
}

/// Advertising can only be active once the stack is initialized.
pub open spec fn ble_inv(b: Ble) -> bool {
    b.advertising ==> b.initialized
}

/// The connection state derived from a snapshot, in fixed precedence:
/// error over connected over advertising over idle.
pub open spec fn spec_conn_state(b: Ble, connected: bool) -> ConnState {
    if b.error {
        ConnState::Error
    } else if connected {
        ConnState::Connected
    } else if b.advertising {
        ConnState::Pairing
    } else {
        ConnState::Idle
    }
}

impl Ble {
    /// A fresh coordinator: uninitialized, silent, no error.
    pub fn new() -> (r: Ble)
        ensures
            r == (Ble { initialized: false, advertising: false, error: false }),
            ble_inv(r),
    {
        Ble { initialized: false, advertising: false, error: false }
    }

    /// One-time radio initialization, idempotent: a no-op once initialized,
    /// otherwise one adapter `init` call whose failure leaves the
    /// coordinator as it was.
    pub fn init<A: RadioAdapter>(&mut self, adapter: &mut A) -> (r: Result<(), Error>)
        ensures
            old(self).initialized ==> r is Ok && *final(self) == *old(self),
            r is Ok ==> final(self).initialized,
            r is Err ==> *final(self) == *old(self),
            final(self).advertising == old(self).advertising,
            final(self).error == old(self).error,
            ble_inv(*old(self)) ==> ble_inv(*final(self)),
    {
        if self.initialized {
            return Ok(());
        }
        match adapter.init() {
            Ok(()) => {
                self.initialized = true;
                Ok(())
            },
            Err(e) => Err(e),
        }
    }

    /// Open the pairing window: initialize lazily, then start advertising.
    /// A no-op while already advertising; on adapter failure the
    /// coordinator is left not advertising.
    pub fn start_pairing<A: RadioAdapter>(&mut self, adapter: &mut A) -> (r: Result<(), Error>)
        requires
            ble_inv(*old(self)),
        ensures
            ble_inv(*final(self)),
            final(self).error == old(self).error,
            old(self).advertising ==> r is Ok && *final(self) == *old(self),
            !old(self).advertising && r is Ok ==> *final(self) == (Ble {
                initialized: true,
                advertising: true,
                error: old(self).error,
            }),
            r is Err ==> !final(self).advertising && (final(self).initialized
                == old(self).initialized || final(self).initialized),
    {
        match self.init(adapter) {
            Ok(()) => {},
            Err(e) => {
                return Err(e);
            },
        }
        if self.advertising {
            return Ok(());
        }
        match adapter.start_advertising() {
            Ok(()) => {
                self.advertising = true;
                Ok(())
            },
            Err(e) => Err(e),
        }
    }

    /// Close the pairing window: a no-op while not advertising, otherwise
    /// one adapter stop call. The advertising flag is cleared even when
    /// that call fails, so a stop racing a connect converges on
    /// not-advertising.
    pub fn stop_pairing<A: RadioAdapter>(&mut self, adapter: &mut A) -> (r: Result<(), Error>)
        ensures
            !final(self).advertising,
            final(self).initialized == old(self).initialized,
            final(self).error == old(self).error,
            !old(self).advertising ==> r is Ok && *final(self) == *old(self),
            r is Err ==> old(self).advertising,
            ble_inv(*old(self)) ==> ble_inv(*final(self)),
    {
        if !self.advertising {
            return Ok(());
        }
        self.advertising = false;
        if self.initialized {
            match adapter.stop_advertising() {
                Ok(()) => Ok(()),
                Err(e) => Err(e),
            }
        } else {
            Ok(())
        }
    }

    /// The connect callback's work: stop advertising (the peer found us)
    /// and report the connection. Runs on behalf of the radio stack's
    /// callback context; app code only forwards into it.
    pub fn on_connected<A: RadioAdapter>(
        &mut self,
        adapter: &mut A,
        events: &mut Vec<BleEvent>,
    )
        ensures
            !final(self).advertising,
            final(self).initialized == old(self).initialized,
            final(self).error == old(self).error,
            final(events)@ == old(events)@.push(BleEvent::Connected),
            ble_inv(*old(self)) ==> ble_inv(*final(self)),
    {
        let _ = self.stop_pairing(adapter);
        events.push(BleEvent::Connected);
    }

    /// The disconnect callback's work: report the disconnection.
    /// Advertising is not restarted automatically.
    pub fn on_disconnected(&mut self, events: &mut Vec<BleEvent>)
        ensures
            *final(self) == *old(self),
            final(events)@ == old(events)@.push(BleEvent::Disconnected),
    {
        events.push(BleEvent::Disconnected);
    }

    /// Whether any peer is connected, derived from the adapter; `false`
    /// before initialization.
    pub fn is_connected<A: RadioAdapter>(&self, adapter: &mut A) -> (r: bool)
        ensures
            !self.initialized ==> !r,
    {
        if self.initialized {
            adapter.connected_count() > 0
        } else {
            false
        }
    }

    /// Whether advertising is active.
    pub fn is_advertising(&self) -> (r: bool)
        ensures
            r == self.advertising,
    {
        self.advertising
    }

    /// Record or clear the error flag.
    pub fn set_error(&mut self, value: bool)
        ensures
            *final(self) == (Ble {
                initialized: old(self).initialized,
                advertising: old(self).advertising,
                error: value,
            }),
    {
        self.error = value;
    }

    /// Whether an adapter call failed without a later recovery.
    pub fn has_error(&self) -> (r: bool)
        ensures
            r == self.error,
    {
        self.error
    }

    /// The connection state derived from this snapshot and the given
    /// connection truth, in fixed precedence: error over connected over
    /// advertising over idle.
    pub fn state(&self, connected: bool) -> (r: ConnState)
        ensures
            r == spec_conn_state(*self, connected),
    {
        if self.error {
            ConnState::Error
        } else if connected {
            ConnState::Connected
        } else if self.advertising {
            ConnState::Pairing
        } else {
            ConnState::Idle
        }
    }
}

} // verus!
