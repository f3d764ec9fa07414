//! The shared-state hub: owns each task's command queue handle and the two
//! event queues, and routes messages between tasks.
//!
//! A send through an unset handle degrades gracefully — the message is
//! dropped rather than failing the caller, matching best-effort delivery.
//! Within one queue, delivery is FIFO; across queues there is no ordering
//! guarantee.

use vstd::prelude::*;

use crate::ble_command::BleCommand;
use crate::ble_event::BleEvent;
use crate::ble_handle::BleHandle;
use crate::button::ButtonEvent;
use crate::led::LedCommand;
use crate::led_handle::LedHandle;

verus! {

/// Task-shared routing state: the two command handles and the two event
/// queues, each optional until its task has been started and registered.
#[derive(Debug)]
pub struct Tasks {
    /// Command queue of the indicator driver, once registered.
    pub led_handle: Option<LedHandle>,
    /// Command queue of the radio coordinator, once registered.
    pub ble_handle: Option<BleHandle>,
    /// Button events awaiting the event router, once registered.
    pub button_event_tx: Option<Vec<ButtonEvent>>,
    /// Radio events awaiting the event router, once registered.
    pub ble_event_tx: Option<Vec<BleEvent>>,
}

impl Tasks {
    /// Queued indicator commands, oldest first, if that handle is set.
    pub open spec fn led_queue(self) -> Option<Seq<LedCommand>> {
        match self.led_handle {
            Some(h) => Some(h.tx@),
            None => None,
        }
    }

    /// Queued radio commands, oldest first, if that handle is set.
    pub open spec fn ble_queue(self) -> Option<Seq<BleCommand>> {
        match self.ble_handle {
            Some(h) => Some(h.tx@),
            None => None,
        }
    }

    /// Queued button events, oldest first, if that queue is set.
    pub open spec fn button_queue(self) -> Option<Seq<ButtonEvent>> {
        match self.button_event_tx {
            Some(q) => Some(q@),
            None => None,
        }
    }

    /// Queued radio events, oldest first, if that queue is set.
    pub open spec fn ble_event_queue(self) -> Option<Seq<BleEvent>> {
        match self.ble_event_tx {
            Some(q) => Some(q@),
            None => None,
        }
    }

    /// A hub with nothing registered yet.
    pub fn new() -> (r: Tasks)
        ensures
            r.led_queue() is None,
            r.ble_queue() is None,
            r.button_queue() is None,
            r.ble_event_queue() is None,
    {
        Tasks { led_handle: None, ble_handle: None, button_event_tx: None, ble_event_tx: None }
    }

    /// Register the indicator driver's command queue.
    pub fn set_led_handle(&mut self, handle: LedHandle)
        ensures
            final(self).led_queue() == Some(handle.tx@),
            final(self).ble_queue() == old(self).ble_queue(),
            final(self).button_queue() == old(self).button_queue(),
            final(self).ble_event_queue() == old(self).ble_event_queue(),
    {
        self.led_handle = Some(handle);
    }

    /// Register the radio coordinator's command queue.
    pub fn set_ble_handle(&mut self, handle: BleHandle)
        ensures
            final(self).ble_queue() == Some(handle.tx@),
            final(self).led_queue() == old(self).led_queue(),
            final(self).button_queue() == old(self).button_queue(),
            final(self).ble_event_queue() == old(self).ble_event_queue(),
    {
        self.ble_handle = Some(handle);
    }

    /// Register the button event queue read by the event router.
    pub fn set_button_event_tx(&mut self, tx: Vec<ButtonEvent>)
        ensures
            final(self).button_queue() == Some(tx@),
            final(self).led_queue() == old(self).led_queue(),
            final(self).ble_queue() == old(self).ble_queue(),
            final(self).ble_event_queue() == old(self).ble_event_queue(),
    {
        self.button_event_tx = Some(tx);
    }

    /// Register the radio event queue read by the event router.
    pub fn set_ble_event_tx(&mut self, tx: Vec<BleEvent>)
        ensures
            final(self).ble_event_queue() == Some(tx@),
            final(self).led_queue() == old(self).led_queue(),
            final(self).ble_queue() == old(self).ble_queue(),
            final(self).button_queue() == old(self).button_queue(),
    {
        self.ble_event_tx = Some(tx);
    }

    /// Send a command to the indicator driver; dropped if its handle is not
    /// set.
    pub fn send_led_command(&mut self, cmd: LedCommand)
        ensures
            old(self).led_queue() matches Some(q) ==> final(self).led_queue() == Some(q.push(cmd)),
            old(self).led_queue() is None ==> final(self).led_queue() is None,
            final(self).ble_queue() == old(self).ble_queue(),
            final(self).button_queue() == old(self).button_queue(),
            final(self).ble_event_queue() == old(self).ble_event_queue(),
    {
        match self.led_handle.take() {
            Some(mut h) => {
                h.set(cmd);
                self.led_handle = Some(h);
            },
            None => {},
        }
    }

    /// Send a command to the radio coordinator; dropped if its handle is not
    /// set.
    pub fn send_ble_command(&mut self, cmd: BleCommand)
        ensures
            old(self).ble_queue() matches Some(q) ==> final(self).ble_queue() == Some(q.push(cmd)),
            old(self).ble_queue() is None ==> final(self).ble_queue() is None,
            final(self).led_queue() == old(self).led_queue(),
            final(self).button_queue() == old(self).button_queue(),
            final(self).ble_event_queue() == old(self).ble_event_queue(),
    {
        match self.ble_handle.take() {
            Some(mut h) => {
                h.send(cmd);
                self.ble_handle = Some(h);
            },
            None => {},
        }
    }

    /// Deliver a button event to the router; dropped if that queue is not
    /// set.
    pub fn send_button_event(&mut self, event: ButtonEvent)
        ensures
            old(self).button_queue() matches Some(q) ==> final(self).button_queue() == Some(
                q.push(event),
            ),
            old(self).button_queue() is None ==> final(self).button_queue() is None,
            final(self).led_queue() == old(self).led_queue(),
            final(self).ble_queue() == old(self).ble_queue(),
            final(self).ble_event_queue() == old(self).ble_event_queue(),
    {
        match self.button_event_tx.take() {
            Some(mut q) => {
                q.push(event);
                self.button_event_tx = Some(q);
            },
            None => {},
        }
    }

    /// Deliver a radio event to the router; dropped if that queue is not
    /// set.
    pub fn send_ble_event(&mut self, event: BleEvent)
        ensures
            old(self).ble_event_queue() matches Some(q) ==> final(self).ble_event_queue() == Some(
                q.push(event),
            ),
            old(self).ble_event_queue() is None ==> final(self).ble_event_queue() is None,
            final(self).led_queue() == old(self).led_queue(),
            final(self).ble_queue() == old(self).ble_queue(),
            final(self).button_queue() == old(self).button_queue(),
    {
        match self.ble_event_tx.take() {
            Some(mut q) => {
                q.push(event);
                self.ble_event_tx = Some(q);
            },
            None => {},
        }
    }

    /// Take every queued indicator command, oldest first; empty if the
    /// handle is not set.
    pub fn take_led_commands(&mut self) -> (r: Vec<LedCommand>)
        ensures
            old(self).led_queue() matches Some(q) ==> r@ == q && final(self).led_queue() == Some(
                Seq::<LedCommand>::empty(),
            ),
            old(self).led_queue() is None ==> r@ == Seq::<LedCommand>::empty() && final(self).led_queue() is None,
            final(self).ble_queue() == old(self).ble_queue(),
            final(self).button_queue() == old(self).button_queue(),
            final(self).ble_event_queue() == old(self).ble_event_queue(),
    {
        match self.led_handle.take() {
            Some(mut h) => {
                let out = h.take_all();
                self.led_handle = Some(h);
                out
            },
            None => Vec::new(),
        }
    }

    /// Take every queued radio command, oldest first; empty if the handle is
    /// not set.
    pub fn take_ble_commands(&mut self) -> (r: Vec<BleCommand>)
        ensures
            old(self).ble_queue() matches Some(q) ==> r@ == q && final(self).ble_queue() == Some(
                Seq::<BleCommand>::empty(),
            ),
            old(self).ble_queue() is None ==> r@ == Seq::<BleCommand>::empty() && final(self).ble_queue() is None,
            final(self).led_queue() == old(self).led_queue(),
            final(self).button_queue() == old(self).button_queue(),
            final(self).ble_event_queue() == old(self).ble_event_queue(),
    {
        match self.ble_handle.take() {
            Some(mut h) => {
                let out = h.take_all();
                self.ble_handle = Some(h);
                out
            },
            None => Vec::new(),
        }
    }

    /// Take every queued button event, oldest first; empty if that queue is
    /// not set.
    pub fn take_button_events(&mut self) -> (r: Vec<ButtonEvent>)
        ensures
            old(self).button_queue() matches Some(q) ==> r@ == q && final(self).button_queue()
                == Some(Seq::<ButtonEvent>::empty()),
            old(self).button_queue() is None ==> r@ == Seq::<ButtonEvent>::empty() && final(self).button_queue() is None,
            final(self).led_queue() == old(self).led_queue(),
            final(self).ble_queue() == old(self).ble_queue(),
            final(self).ble_event_queue() == old(self).ble_event_queue(),
    {
        match self.button_event_tx.take() {
            Some(mut q) => {
                let mut out: Vec<ButtonEvent> = Vec::new();
                core::mem::swap(&mut out, &mut q);
                self.button_event_tx = Some(q);
                out
            },
            None => Vec::new(),
        }
    }

    /// Take every queued radio event, oldest first; empty if that queue is
    /// not set.
    pub fn take_ble_events(&mut self) -> (r: Vec<BleEvent>)
        ensures
            old(self).ble_event_queue() matches Some(q) ==> r@ == q && final(self).ble_event_queue()
                == Some(Seq::<BleEvent>::empty()),
            old(self).ble_event_queue() is None ==> r@ == Seq::<BleEvent>::empty() && final(self).ble_event_queue() is None,
            final(self).led_queue() == old(self).led_queue(),
            final(self).ble_queue() == old(self).ble_queue(),
            final(self).button_queue() == old(self).button_queue(),
    {
        match self.ble_event_tx.take() {
            Some(mut q) => {
                let mut out: Vec<BleEvent> = Vec::new();
                core::mem::swap(&mut out, &mut q);
                self.ble_event_tx = Some(q);
                out
            },
            None => Vec::new(),
        }
    }
}

} // verus!
