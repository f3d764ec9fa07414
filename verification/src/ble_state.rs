//! Connection and radio states, numeric-encoded so that one byte can sit in
//! an atomic storage cell.
//!
//! Readers decode with `From<u8>`; an unknown code decodes to `Idle`, so a
//! reader always observes one of the defined states. Encoding then decoding
//! returns the state that was stored (proved below).

use vstd::prelude::*;

verus! {

/// The single authoritative connection state, written by the radio
/// coordinator and (to request `Pairing`) by the button monitor.
#[derive(Debug, Clone, Copy, PartialEq, Eq)]
pub enum ConnState {
    Idle,
    Pairing,
    Connected,
    Disconnected,
    Error,
}

/// The byte that stands for each connection state in atomic storage.
pub open spec fn conn_state_code(s: ConnState) -> u8 {
    match s {
        ConnState::Idle => 0,
        ConnState::Pairing => 1,
        ConnState::Connected => 2,
        ConnState::Disconnected => 3,
        ConnState::Error => 255,
    }
}

/// The connection state a stored byte decodes to; unknown codes read as
/// `Idle`.
pub open spec fn conn_state_from_code(v: u8) -> ConnState {
    if v == 1 {
        ConnState::Pairing
    } else if v == 2 {
        ConnState::Connected
    } else if v == 3 {
        ConnState::Disconnected
    } else if v == 255 {
        ConnState::Error
    } else {
        ConnState::Idle
    }
}

impl ConnState {
    /// The byte to store for this state.
    pub fn to_u8(self) -> (r: u8)
        ensures
            r == conn_state_code(self),
    {
        match self {
            ConnState::Idle => 0,
            ConnState::Pairing => 1,
            ConnState::Connected => 2,
            ConnState::Disconnected => 3,
            ConnState::Error => 255,
        }
    }
}

impl core::convert::From<u8> for ConnState {
    /// Decode a stored byte; unknown codes decode to `Idle`.
    fn from(v: u8) -> (r: ConnState) {
        match v {
            1 => ConnState::Pairing,
            2 => ConnState::Connected,
            3 => ConnState::Disconnected,
            255 => ConnState::Error,
            _ => ConnState::Idle,
        }
    }
}

impl vstd::std_specs::convert::FromSpecImpl<u8> for ConnState {
    open spec fn obeys_from_spec() -> bool {
        true
    }

    open spec fn from_spec(v: u8) -> ConnState {
        conn_state_from_code(v)
    }
}

/// Storing a connection state and reading it back yields the same state:
/// the encoding loses nothing.
pub proof fn lemma_conn_state_round_trip(s: ConnState)
    ensures
        conn_state_from_code(conn_state_code(s)) == s,
{
}

/// The radio task's own lifecycle state, numeric-encoded the same way.
#[derive(Debug, Clone, Copy, PartialEq, Eq)]
pub enum BleState {
    Idle,
    Advertising,
    Connected,
    Disconnected,
    Error,
}

/// The byte that stands for each radio state in atomic storage.
pub open spec fn ble_state_code(s: BleState) -> u8 {
    match s {
        BleState::Idle => 0,
        BleState::Advertising => 1,
        BleState::Connected => 2,
        BleState::Disconnected => 3,
        BleState::Error => 255,
    }
}

/// The radio state a stored byte decodes to; unknown codes read as `Idle`.
pub open spec fn ble_state_from_code(v: u8) -> BleState {
    if v == 1 {
        BleState::Advertising
    } else if v == 2 {
        BleState::Connected
    } else if v == 3 {
        BleState::Disconnected
    } else if v == 255 {
        BleState::Error
    } else {
        BleState::Idle
    }
}

impl BleState {
    /// The byte to store for this state.
    pub fn to_u8(self) -> (r: u8)
        ensures
            r == ble_state_code(self),
    {
        match self {
            BleState::Idle => 0,
            BleState::Advertising => 1,
            BleState::Connected => 2,
            BleState::Disconnected => 3,
            BleState::Error => 255,
        }
    }
}

impl core::convert::From<u8> for BleState {
    /// Decode a stored byte; unknown codes decode to `Idle`.
    fn from(v: u8) -> (r: BleState) {
        match v {
            1 => BleState::Advertising,
            2 => BleState::Connected,
            3 => BleState::Disconnected,
            255 => BleState::Error,
            _ => BleState::Idle,
        }
    }
}

impl vstd::std_specs::convert::FromSpecImpl<u8> for BleState {
    open spec fn obeys_from_spec() -> bool {
        true
    }

    open spec fn from_spec(v: u8) -> BleState {
        ble_state_from_code(v)
    }
}

/// Storing a radio state and reading it back yields the same state.
pub proof fn lemma_ble_state_round_trip(s: BleState)
    ensures
        ble_state_from_code(ble_state_code(s)) == s,
{
}

} // verus!
