//! Handle for sending commands to the radio coordinator.
//!
//! The handle owns the coordinator's inbound FIFO queue. Enqueueing never
//! blocks and never fails; the `Result` mirrors the best-effort send of a
//! cross-task channel and is always `Ok` here.

use vstd::prelude::*;

use crate::ble_command::BleCommand;
use crate::error::Error;

verus! {

/// The radio coordinator's inbound command queue, FIFO.
#[derive(Debug)]
pub struct BleHandle {
    /// Queued commands, oldest first.
    pub tx: Vec<BleCommand>,
}

impl BleHandle {
    /// A handle with an empty queue.
    pub fn new() -> (r: BleHandle)
        ensures
            r.tx@ == Seq::<BleCommand>::empty(),
    {
        BleHandle { tx: Vec::new() }
    }

    /// Enqueue one command.
    pub(crate) fn send(&mut self, cmd: BleCommand)
        ensures
            final(self).tx@ == old(self).tx@.push(cmd),
    {
        self.tx.push(cmd);
    }

    /// Request that advertising start, with a pairing window of
    /// `timeout_ms` milliseconds.
    pub fn start_advertising(&mut self, timeout_ms: u32) -> (r: Result<(), Error>)
        ensures
            r is Ok,
            final(self).tx@ == old(self).tx@.push(
                BleCommand::StartAdvertise { timeout_ms },
            ),
    {
        self.send(BleCommand::StartAdvertise { timeout_ms });
        Ok(())
    }

    /// Request that advertising stop.
    pub fn stop_advertising(&mut self) -> (r: Result<(), Error>)
        ensures
            r is Ok,
            final(self).tx@ == old(self).tx@.push(BleCommand::StopAdvertise),
    {
        self.send(BleCommand::StopAdvertise);
        Ok(())
    }

    /// Request that the radio task shut down.
    pub fn shutdown(&mut self) -> (r: Result<(), Error>)
        ensures
            r is Ok,
            final(self).tx@ == old(self).tx@.push(BleCommand::Shutdown),
    {
        self.send(BleCommand::Shutdown);
        Ok(())
    }

    /// Take the whole queued batch, oldest first, leaving the queue empty.
    pub fn take_all(&mut self) -> (r: Vec<BleCommand>)
        ensures
            r@ == old(self).tx@,
            final(self).tx@ == Seq::<BleCommand>::empty(),
    {
        let mut out: Vec<BleCommand> = Vec::new();
        core::mem::swap(&mut out, &mut self.tx);
        out
    }
}

} // verus!
