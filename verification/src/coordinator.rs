//! Event router: consumes button and radio events and decides the next
//! radio and indicator commands.
//!
//! The router holds no state of its own. A long press opens a pairing
//! window; every radio lifecycle event triggers a `GetStatus`, and the
//! resulting `StatusResponse` — ground truth rather than event identity —
//! decides the indicator, with fixed precedence: error over connected over
//! advertising over idle.

use vstd::prelude::*;

use crate::ble_command::BleCommand;
use crate::ble_event::BleEvent;
use crate::ble_state::ConnState;
use crate::button::ButtonEvent;
use crate::led::{LedCommand, LedState};
use crate::tasks::Tasks;

verus! {

/// How long the pairing window opened by a long press stays open, in
/// milliseconds.
pub const PAIRING_WINDOW_MS: u32 = 60000;

/// What the router does with one radio event: forward a command to the
/// radio coordinator, or command the indicator.
#[derive(Debug, Clone, Copy, PartialEq, Eq)]
pub enum RouterAction {
    /// Send this command to the radio coordinator.
    Radio(BleCommand),
    /// Send this command to the indicator driver.
    Led(LedCommand),
}

/// The radio command a button event maps to: a long press opens the
/// pairing window; a short press is reserved and maps to nothing.
pub open spec fn spec_route_button(event: ButtonEvent) -> Option<BleCommand> {
    match event {
        ButtonEvent::LongPress => Some(
            BleCommand::StartAdvertise { timeout_ms: PAIRING_WINDOW_MS },
        ),
        ButtonEvent::ShortPress => None,
    }
}

/// The indicator command for a status snapshot, in fixed precedence:
/// error blinks fast (100 ms), else connected holds the light on, else
/// advertising blinks slow (500 ms), else off.
pub open spec fn spec_led_command_for_status(
    connected: bool,
    advertising: bool,
    error: bool,
) -> LedCommand {
    if error {
        LedCommand::Blink { interval_ms: 100 }
    } else if connected {
        LedCommand::On
    } else if advertising {
        LedCommand::Blink { interval_ms: 500 }
    } else {
        LedCommand::Off
    }
}

/// The router's reaction to one radio event: a `StatusResponse` decides the
/// indicator; every other event asks for a fresh status snapshot.
pub open spec fn spec_route_ble(event: BleEvent) -> RouterAction {
    match event {
        BleEvent::StatusResponse { connected, advertising, error } => RouterAction::Led(
            spec_led_command_for_status(connected, advertising, error),
        ),
        _ => RouterAction::Radio(BleCommand::GetStatus),
    }
}

/// The indicator state that mirrors each connection state.
pub open spec fn spec_led_state_for_conn(conn: ConnState) -> LedState {
    match conn {
        ConnState::Pairing => LedState::BlinkingFast,
        ConnState::Connected => LedState::On,
        ConnState::Disconnected => LedState::BlinkingSlow,
        ConnState::Idle => LedState::Off,
        ConnState::Error => LedState::Error,
    }
}

/// The radio commands a run of button events produces, in order.
pub open spec fn spec_ble_cmds_from_button(events: Seq<ButtonEvent>) -> Seq<BleCommand>
    decreases events.len(),
{
    if events.len() == 0 {
        Seq::empty()
    } else {
        match spec_route_button(events[0]) {
            Some(cmd) => seq![cmd] + spec_ble_cmds_from_button(events.skip(1)),
            None => spec_ble_cmds_from_button(events.skip(1)),
        }
    }
}

/// The radio commands a run of radio events produces, in order: one
/// `GetStatus` per lifecycle event.
pub open spec fn spec_ble_cmds_from_ble(events: Seq<BleEvent>) -> Seq<BleCommand>
    decreases events.len(),
{
    if events.len() == 0 {
        Seq::empty()
    } else {
        match spec_route_ble(events[0]) {
            RouterAction::Radio(cmd) => seq![cmd] + spec_ble_cmds_from_ble(events.skip(1)),
            RouterAction::Led(_) => spec_ble_cmds_from_ble(events.skip(1)),
        }
    }
}

/// The indicator commands a run of radio events produces, in order: one per
/// `StatusResponse`.
pub open spec fn spec_led_cmds_from_ble(events: Seq<BleEvent>) -> Seq<LedCommand>
    decreases events.len(),
{
    if events.len() == 0 {
        Seq::empty()
    } else {
        match spec_route_ble(events[0]) {
            RouterAction::Led(cmd) => seq![cmd] + spec_led_cmds_from_ble(events.skip(1)),
            RouterAction::Radio(_) => spec_led_cmds_from_ble(events.skip(1)),
        }
    }
}

/// The event router. It owns nothing; each [`EventCoordinator::step`]
/// drains the hub's event queues and routes what it finds.
#[derive(Debug)]
pub struct EventCoordinator;

impl EventCoordinator {
    /// The radio command for one button event, if any.
    pub fn route_button_event(event: ButtonEvent) -> (r: Option<BleCommand>)
        ensures
            r == spec_route_button(event),
    {
        match event {
            ButtonEvent::LongPress => Some(
                BleCommand::StartAdvertise { timeout_ms: PAIRING_WINDOW_MS },
            ),
            ButtonEvent::ShortPress => None,
        }
    }

    /// The indicator command for a status snapshot, by the fixed
    /// precedence.
    pub fn led_command_for_status(connected: bool, advertising: bool, error: bool) -> (r:
        LedCommand)
        ensures
            r == spec_led_command_for_status(connected, advertising, error),
    {
        if error {
            LedCommand::Blink { interval_ms: 100 }
        } else if connected {
            LedCommand::On
        } else if advertising {
            LedCommand::Blink { interval_ms: 500 }
        } else {
            LedCommand::Off
        }
    }

    /// The reaction to one radio event.
    pub fn route_ble_event(event: BleEvent) -> (r: RouterAction)
        ensures
            r == spec_route_ble(event),
    {
        match event {
            BleEvent::StatusResponse { connected, advertising, error } => RouterAction::Led(
                Self::led_command_for_status(connected, advertising, error),
            ),
            _ => RouterAction::Radio(BleCommand::GetStatus),
        }
    }

    /// The indicator state that mirrors a connection state, for callers
    /// that drive the indicator from `ConnState` directly.
    pub fn led_state_for_conn(conn: ConnState) -> (r: LedState)
        ensures
            r == spec_led_state_for_conn(conn),
    {
        match conn {
            ConnState::Pairing => LedState::BlinkingFast,
            ConnState::Connected => LedState::On,
            ConnState::Disconnected => LedState::BlinkingSlow,
            ConnState::Idle => LedState::Off,
            ConnState::Error => LedState::Error,
        }
    }

    /// One router tick: drain both event queues and route every event, in
    /// arrival order, button events first. Routed radio commands append to
    /// the radio queue and indicator commands to the indicator queue, each
    /// in order; a command for an unset handle is dropped.
    pub fn step(tasks: &mut Tasks)
        ensures
            old(tasks).button_queue() is Some ==> final(tasks).button_queue() == Some(
                Seq::<ButtonEvent>::empty(),
            ),
            old(tasks).button_queue() is None ==> final(tasks).button_queue() is None,
            old(tasks).ble_event_queue() is Some ==> final(tasks).ble_event_queue() == Some(
                Seq::<BleEvent>::empty(),
            ),
            old(tasks).ble_event_queue() is None ==> final(tasks).ble_event_queue() is None,
            ({
                let be = match old(tasks).button_queue() {
                    Some(q) => q,
                    None => Seq::empty(),
                };
                let re = match old(tasks).ble_event_queue() {
                    Some(q) => q,
                    None => Seq::empty(),
                };
                &&& (old(tasks).ble_queue() matches Some(q) ==> final(tasks).ble_queue() matches
                    Some(q2) && q2 =~= q + spec_ble_cmds_from_button(be) + spec_ble_cmds_from_ble(
                    re,
                ))
                &&& (old(tasks).ble_queue() is None ==> final(tasks).ble_queue() is None)
                &&& (old(tasks).led_queue() matches Some(q) ==> final(tasks).led_queue() matches
                    Some(q2) && q2 =~= q + spec_led_cmds_from_ble(re))
                &&& (old(tasks).led_queue() is None ==> final(tasks).led_queue() is None)
            }),
    {
        let button_events = tasks.take_button_events();
        let ble_events = tasks.take_ble_events();
        let ghost q_ble0 = tasks.ble_queue();
        let ghost q_led0 = tasks.led_queue();
        let ghost be = button_events@;
        let ghost re = ble_events@;

        proof {
            assert(be.skip(0) =~= be);
        }
        let mut i: usize = 0;
        while i < button_events.len()
            invariant
                i <= button_events.len(),
                be == button_events@,
                q_ble0 is Some ==> (tasks.ble_queue() matches Some(cur) && cur
                    + spec_ble_cmds_from_button(be.skip(i as int)) =~= q_ble0->0
                    + spec_ble_cmds_from_button(be)),
                q_ble0 is None ==> tasks.ble_queue() is None,
                tasks.led_queue() == q_led0,
                old(tasks).button_queue() is Some ==> tasks.button_queue() == Some(
                    Seq::<ButtonEvent>::empty(),
                ),
                old(tasks).button_queue() is None ==> tasks.button_queue() is None,
                old(tasks).ble_event_queue() is Some ==> tasks.ble_event_queue() == Some(
                    Seq::<BleEvent>::empty(),
                ),
                old(tasks).ble_event_queue() is None ==> tasks.ble_event_queue() is None,
            decreases button_events.len() - i,
        {
            assert(be.skip(i as int)[0] == be[i as int]);
            match Self::route_button_event(button_events[i]) {
                Some(cmd) => {
                    tasks.send_ble_command(cmd);
                },
                None => {},
            }
            proof {
                assert(be.skip(i as int).skip(1) =~= be.skip(i as int + 1));
            }
            i = i + 1;
        }
        proof {
            assert(be.skip(button_events@.len() as int) =~= Seq::<ButtonEvent>::empty());
            assert(re.skip(0) =~= re);
        }

        let ghost q_ble1 = tasks.ble_queue();
        let mut j: usize = 0;
        while j < ble_events.len()
            invariant
                j <= ble_events.len(),
                re == ble_events@,
                q_ble1 is Some <==> q_ble0 is Some,
                q_ble1 is Some ==> (tasks.ble_queue() matches Some(cur) && cur
                    + spec_ble_cmds_from_ble(re.skip(j as int)) =~= q_ble1->0
                    + spec_ble_cmds_from_ble(re)),
                q_ble1 is None ==> tasks.ble_queue() is None,
                q_led0 is Some ==> (tasks.led_queue() matches Some(cur) && cur
                    + spec_led_cmds_from_ble(re.skip(j as int)) =~= q_led0->0
                    + spec_led_cmds_from_ble(re)),
                q_led0 is None ==> tasks.led_queue() is None,
                old(tasks).button_queue() is Some ==> tasks.button_queue() == Some(
                    Seq::<ButtonEvent>::empty(),
                ),
                old(tasks).button_queue() is None ==> tasks.button_queue() is None,
                old(tasks).ble_event_queue() is Some ==> tasks.ble_event_queue() == Some(
                    Seq::<BleEvent>::empty(),
                ),
                old(tasks).ble_event_queue() is None ==> tasks.ble_event_queue() is None,
            decreases ble_events.len() - j,
        {
            assert(re.skip(j as int)[0] == re[j as int]);
            match Self::route_ble_event(ble_events[j]) {
                RouterAction::Radio(cmd) => {
                    tasks.send_ble_command(cmd);
                },
                RouterAction::Led(cmd) => {
                    tasks.send_led_command(cmd);
                },
            }
            proof {
                assert(re.skip(j as int).skip(1) =~= re.skip(j as int + 1));
            }
            j = j + 1;
        }
        proof {
            assert(re.skip(ble_events@.len() as int) =~= Seq::<BleEvent>::empty());
        }
    }
}

/// Indicator precedence: when a snapshot reports error, connected and
/// advertising all at once, the error wins and the indicator blinks at
/// 100 ms; connected beats advertising; advertising beats idle.
pub proof fn lemma_indicator_precedence(connected: bool, advertising: bool)
    ensures
        spec_led_command_for_status(connected, advertising, true) == (LedCommand::Blink {
            interval_ms: 100,
        }),
        spec_led_command_for_status(true, advertising, false) == LedCommand::On,
        spec_led_command_for_status(false, true, false) == (LedCommand::Blink {
            interval_ms: 500,
        }),
        spec_led_command_for_status(false, false, false) == LedCommand::Off,
{
}

} // verus!
