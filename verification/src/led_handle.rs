//! Handle for sending commands to the indicator driver.
//!
//! The handle owns the driver's inbound FIFO queue; producers enqueue
//! through it and the driver's task takes the whole batch each tick.
//! Delivery is best-effort by design: enqueueing never fails and never
//! blocks.

use vstd::prelude::*;

use crate::led::LedCommand;

verus! {

/// The indicator driver's inbound command queue, FIFO.
#[derive(Debug)]
pub struct LedHandle {
    /// Queued commands, oldest first.
    pub tx: Vec<LedCommand>,
}

impl LedHandle {
    /// A handle with an empty queue.
    pub fn new() -> (r: LedHandle)
        ensures
            r.tx@ == Seq::<LedCommand>::empty(),
    {
        LedHandle { tx: Vec::new() }
    }

    /// Enqueue one command.
    pub(crate) fn set(&mut self, state: LedCommand)
        ensures
            final(self).tx@ == old(self).tx@.push(state),
    {
        self.tx.push(state);
    }

    /// Ask the indicator to blink with the given half-period.
    pub fn queue_blinking(&mut self, interval_ms: u32)
        ensures
            final(self).tx@ == old(self).tx@.push(LedCommand::Blink { interval_ms }),
    {
        self.set(LedCommand::Blink { interval_ms });
    }

    /// Ask for steady on.
    pub fn queue_on(&mut self)
        ensures
            final(self).tx@ == old(self).tx@.push(LedCommand::On),
    {
        self.set(LedCommand::On);
    }

    /// Ask for steady off.
    pub fn queue_off(&mut self)
        ensures
            final(self).tx@ == old(self).tx@.push(LedCommand::Off),
    {
        self.set(LedCommand::Off);
    }

    /// Take the whole queued batch, oldest first, leaving the queue empty.
    pub fn take_all(&mut self) -> (r: Vec<LedCommand>)
        ensures
            r@ == old(self).tx@,
            final(self).tx@ == Seq::<LedCommand>::empty(),
    {
        let mut out: Vec<LedCommand> = Vec::new();
        core::mem::swap(&mut out, &mut self.tx);
        out
    }
}

} // verus!
