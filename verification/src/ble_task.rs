//! Radio task: processes the coordinator's command queue and runs the
//! pairing-window timer.
//!
//! Each poll tick drains the inbound commands in FIFO order, then checks the
//! deadline. The adapter's answers are not assumed: where a step consults
//! the adapter, its contract is a disjunction over every outcome the
//! adapter can produce, each branch pinned exactly by a spec-level
//! transition. The error flag records adapter failure and is cleared by the
//! next successful advertise start.

use vstd::prelude::*;

use crate::ble::{ble_inv, Ble, RadioAdapter};
use crate::ble_command::BleCommand;
use crate::ble_event::BleEvent;

verus! {

/// How often the radio task polls its queue and timer, in milliseconds.
pub const RADIO_POLL_INTERVAL_MS: u32 = 20;

/// The radio task's state: the coordinator plus the pairing-window
/// deadline, in milliseconds of task time, while one is armed.
#[derive(Debug, Clone, Copy, PartialEq, Eq)]
pub struct BleTask {
    /// The radio coordinator.
    pub ble: Ble,
    /// When the open pairing window expires, if one is open.
    pub deadline: Option<u64>,
}

/// A deadline is only armed while advertising, and advertising only once
/// initialized.
pub open spec fn ble_task_inv(st: BleTask) -> bool {
    &&& ble_inv(st.ble)
    &&& st.deadline is Some ==> st.ble.advertising
}

/// The outcome of one radio task step: the state after it, the events it
/// emits in order, and whether the task keeps running.
pub struct RadioStep {
    pub state: BleTask,
    pub events: Seq<BleEvent>,
    pub running: bool,
}

/// Relates one executed step to its spec-level outcome: the new state is
/// the outcome's state, the emitted events were appended to the event
/// buffer, and the running flag matches.
pub open spec fn step_taken(
    step: RadioStep,
    st2: BleTask,
    ev0: Seq<BleEvent>,
    ev1: Seq<BleEvent>,
    running: bool,
) -> bool {
    &&& st2 == step.state
    &&& ev1 =~= ev0 + step.events
    &&& running == step.running
}

/// The `StartAdvertise` step, given the adapter's two answers (lazy init,
/// then start). A no-op while already advertising; on success the window
/// deadline is armed, the error flag cleared, and `AdvertisingStarted`
/// emitted; on failure the error flag is set and `Error` emitted.
pub open spec fn spec_start_advertise(
    st: BleTask,
    timeout_ms: u32,
    now_ms: u64,
    init_ok: bool,
    start_ok: bool,
) -> RadioStep {
    if st.ble.advertising {
        RadioStep { state: st, events: Seq::empty(), running: true }
    } else if init_ok && start_ok {
        RadioStep {
            state: BleTask {
                ble: Ble { initialized: true, advertising: true, error: false },
                deadline: Some((now_ms + timeout_ms) as u64),
            },
            events: seq![BleEvent::AdvertisingStarted],
            running: true,
        }
    } else {
        RadioStep {
            state: BleTask {
                ble: Ble {
                    initialized: init_ok || st.ble.initialized,
                    advertising: false,
                    error: true,
                },
                deadline: st.deadline,
            },
            events: seq![BleEvent::Error],
            running: true,
        }
    }
}

/// The `StopAdvertise` step: a no-op while not advertising, else close the
/// window, disarm the timer, and report `AdvertisingStopped`. The state
/// change does not depend on the adapter's answer.
pub open spec fn spec_stop_advertise(st: BleTask) -> RadioStep {
    if !st.ble.advertising {
        RadioStep { state: st, events: Seq::empty(), running: true }
    } else {
        RadioStep {
            state: BleTask {
                ble: Ble {
                    initialized: st.ble.initialized,
                    advertising: false,
                    error: st.ble.error,
                },
                deadline: None,
            },
            events: seq![BleEvent::AdvertisingStopped],
            running: true,
        }
    }
}

/// The `GetStatus` step: emit a snapshot of connection truth; the state is
/// untouched.
pub open spec fn spec_get_status(st: BleTask, connected: bool) -> RadioStep {
    RadioStep {
        state: st,
        events: seq![
            BleEvent::StatusResponse {
                connected,
                advertising: st.ble.advertising,
                error: st.ble.error,
            },
        ],
        running: true,
    }
}

/// The `DisconnectAll` step: ask the adapter to drop every peer; the
/// coordinator's own state is untouched and any resulting events arrive
/// through the connection callbacks.
pub open spec fn spec_disconnect_all(st: BleTask) -> RadioStep {
    RadioStep { state: st, events: Seq::empty(), running: true }
}

/// The `Shutdown` step: close the window, disarm the timer, run disconnect
/// cleanup, and terminate the task.
pub open spec fn spec_shutdown(st: BleTask) -> RadioStep {
    RadioStep {
        state: BleTask {
            ble: Ble { initialized: st.ble.initialized, advertising: false, error: st.ble.error },
            deadline: None,
        },
        events: Seq::empty(),
        running: false,
    }
}

/// The timer step: if a deadline is armed and has passed, close the window,
/// disarm, and report `AdvertisingStopped`; otherwise do nothing.
pub open spec fn spec_check_timeout(st: BleTask, now_ms: u64) -> RadioStep {
    match st.deadline {
        Some(d) => {
            if now_ms >= d {
                RadioStep {
                    state: BleTask {
                        ble: Ble {
                            initialized: st.ble.initialized,
                            advertising: false,
                            error: st.ble.error,
                        },
                        deadline: None,
                    },
                    events: seq![BleEvent::AdvertisingStopped],
                    running: true,
                }
            } else {
                RadioStep { state: st, events: Seq::empty(), running: true }
            }
        },
        None => RadioStep { state: st, events: Seq::empty(), running: true },
    }
}

impl BleTask {
    /// A fresh radio task: fresh coordinator, no window armed.
    pub fn new() -> (r: BleTask)
        ensures
            r == (BleTask {
                ble: Ble { initialized: false, advertising: false, error: false },
                deadline: None,
            }),
            ble_task_inv(r),
    {
        BleTask { ble: Ble::new(), deadline: None }
    }

    /// Process one command. The contract pins each command's effect to its
    /// spec-level step; where the adapter is consulted, one branch holds
    /// for each answer it can give.
    pub fn handle_command<A: RadioAdapter>(
        &mut self,
        adapter: &mut A,
        cmd: BleCommand,
        now_ms: u64,
        events: &mut Vec<BleEvent>,
    ) -> (running: bool)
        requires
            ble_task_inv(*old(self)),
            cmd matches BleCommand::StartAdvertise { timeout_ms } ==> now_ms + timeout_ms
                <= u64::MAX,
        ensures
            ble_task_inv(*final(self)),
            cmd matches BleCommand::StartAdvertise { timeout_ms } ==> {
                ||| step_taken(
                    spec_start_advertise(*old(self), timeout_ms, now_ms, true, true),
                    *final(self),
                    old(events)@,
                    final(events)@,
                    running,
                )
                ||| step_taken(
                    spec_start_advertise(*old(self), timeout_ms, now_ms, true, false),
                    *final(self),
                    old(events)@,
                    final(events)@,
                    running,
                )
                ||| step_taken(
                    spec_start_advertise(*old(self), timeout_ms, now_ms, false, false),
                    *final(self),
                    old(events)@,
                    final(events)@,
                    running,
                )
            },
            cmd is StopAdvertise ==> step_taken(
                spec_stop_advertise(*old(self)),
                *final(self),
                old(events)@,
                final(events)@,
                running,
            ),
            cmd is GetStatus ==> {
                ||| step_taken(
                    spec_get_status(*old(self), true),
                    *final(self),
                    old(events)@,
                    final(events)@,
                    running,
                )
                ||| step_taken(
                    spec_get_status(*old(self), false),
                    *final(self),
                    old(events)@,
                    final(events)@,
                    running,
                )
            },
            cmd is GetStatus && !old(self).ble.initialized ==> step_taken(
                spec_get_status(*old(self), false),
                *final(self),
                old(events)@,
                final(events)@,
                running,
            ),
            cmd is DisconnectAll ==> step_taken(
                spec_disconnect_all(*old(self)),
                *final(self),
                old(events)@,
                final(events)@,
                running,
            ),
            cmd is Shutdown ==> step_taken(
                spec_shutdown(*old(self)),
                *final(self),
                old(events)@,
                final(events)@,
                running,
            ),
            running == !(cmd is Shutdown),
    {
        match cmd {
            BleCommand::StartAdvertise { timeout_ms } => {
                if self.ble.is_advertising() {
                    return true;
                }
                match self.ble.start_pairing(adapter) {
                    Ok(()) => {
                        self.ble.set_error(false);
                        self.deadline = Some(now_ms + timeout_ms as u64);
                        events.push(BleEvent::AdvertisingStarted);
                    },
                    Err(_e) => {
                        self.ble.set_error(true);
                        events.push(BleEvent::Error);
                    },
                }
                true
            },
            BleCommand::StopAdvertise => {
                if !self.ble.is_advertising() {
                    return true;
                }
                let _ = self.ble.stop_pairing(adapter);
                self.deadline = None;
                events.push(BleEvent::AdvertisingStopped);
                true
            },
            BleCommand::GetStatus => {
                let connected = self.ble.is_connected(adapter);
                events.push(
                    BleEvent::StatusResponse {
                        connected,
                        advertising: self.ble.is_advertising(),
                        error: self.ble.has_error(),
                    },
                );
                true
            },
            BleCommand::DisconnectAll => {
                let _ = adapter.disconnect_all();
                true
            },
            BleCommand::Shutdown => {
                let _ = self.ble.stop_pairing(adapter);
                self.deadline = None;
                let _ = adapter.disconnect_all();
                false
            },
        }
    }

    /// The connect callback at task level: the peer found us, so stop
    /// advertising, disarm the pairing window, and report the connection.
    pub fn on_connected<A: RadioAdapter>(
        &mut self,
        adapter: &mut A,
        events: &mut Vec<BleEvent>,
    )
        requires
            ble_task_inv(*old(self)),
        ensures
            ble_task_inv(*final(self)),
            !final(self).ble.advertising,
            final(self).deadline is None,
            final(self).ble.initialized == old(self).ble.initialized,
            final(self).ble.error == old(self).ble.error,
            final(events)@ == old(events)@.push(BleEvent::Connected),
    {
        self.ble.on_connected(adapter, events);
        self.deadline = None;
    }

    /// The disconnect callback at task level: report the disconnection and
    /// nothing more — advertising is not restarted automatically.
    pub fn on_disconnected(&mut self, events: &mut Vec<BleEvent>)
        ensures
            *final(self) == *old(self),
            final(events)@ == old(events)@.push(BleEvent::Disconnected),
    {
        self.ble.on_disconnected(events);
    }

    /// The timer check run every poll tick: close the pairing window once
    /// its deadline has passed.
    pub fn check_timeout<A: RadioAdapter>(
        &mut self,
        adapter: &mut A,
        now_ms: u64,
        events: &mut Vec<BleEvent>,
    )
        requires
            ble_task_inv(*old(self)),
        ensures
            ble_task_inv(*final(self)),
            step_taken(
                spec_check_timeout(*old(self), now_ms),
                *final(self),
                old(events)@,
                final(events)@,
                true,
            ),
    {
        match self.deadline {
            Some(d) => {
                if now_ms >= d {
                    let _ = self.ble.stop_pairing(adapter);
                    self.deadline = None;
                    events.push(BleEvent::AdvertisingStopped);
                }
            },
            None => {},
        }
    }

    /// One full poll tick: process the drained command batch in FIFO order,
    /// stopping at a `Shutdown` (commands behind it are dropped), then run
    /// the timer check if still running. Events are appended to `events` in
    /// the order emitted.
    pub fn poll<A: RadioAdapter>(
        &mut self,
        adapter: &mut A,
        cmds: &Vec<BleCommand>,
        now_ms: u64,
        events: &mut Vec<BleEvent>,
    ) -> (running: bool)
        requires
            ble_task_inv(*old(self)),
            forall|i: int|
                0 <= i < cmds@.len() ==> ((#[trigger] cmds@[i])
                    matches BleCommand::StartAdvertise { timeout_ms } ==> now_ms + timeout_ms
                    <= u64::MAX),
        ensures
            ble_task_inv(*final(self)),
            running == !cmds@.contains(BleCommand::Shutdown),
            !running ==> !final(self).ble.advertising && final(self).deadline is None,
            old(events)@.is_prefix_of(final(events)@),
            cmds@.len() == 0 ==> step_taken(
                spec_check_timeout(*old(self), now_ms),
                *final(self),
                old(events)@,
                final(events)@,
                true,
            ),
    {
        if cmds.len() == 0 {
            self.check_timeout(adapter, now_ms, events);
            assert(!cmds@.contains(BleCommand::Shutdown));
            return true;
        }
        let mut i: usize = 0;
        while i < cmds.len()
            invariant
                i <= cmds.len(),
                ble_task_inv(*self),
                forall|j: int| 0 <= j < i ==> #[trigger] cmds@[j] != BleCommand::Shutdown,
                forall|j: int|
                    0 <= j < cmds@.len() ==> ((#[trigger] cmds@[j])
                        matches BleCommand::StartAdvertise { timeout_ms } ==> now_ms + timeout_ms
                        <= u64::MAX),
                old(events)@.is_prefix_of(events@),
            decreases cmds.len() - i,
        {
            let cmd = cmds[i];
            let running = self.handle_command(adapter, cmd, now_ms, events);
            if !running {
                assert(cmds@[i as int] == BleCommand::Shutdown);
                assert(cmds@.contains(BleCommand::Shutdown));
                return false;
            }
            assert(cmds@[i as int] != BleCommand::Shutdown);
            i = i + 1;
        }
        self.check_timeout(adapter, now_ms, events);
        assert(!cmds@.contains(BleCommand::Shutdown)) by {
            if cmds@.contains(BleCommand::Shutdown) {
                let k = cmds@.index_of(BleCommand::Shutdown);
                assert(cmds@[k] == BleCommand::Shutdown);
            }
        }
        true
    }
}

/// Starting to advertise is idempotent: a first successful `StartAdvertise`
/// emits one `AdvertisingStarted`, and a second one issued while already
/// advertising changes nothing and emits nothing, whatever the adapter
/// would answer.
pub proof fn lemma_start_advertise_idempotent(
    st: BleTask,
    t1: u32,
    t2: u32,
    now1: u64,
    now2: u64,
    init_ok: bool,
    start_ok: bool,
)
    requires
        !st.ble.advertising,
    ensures
        spec_start_advertise(st, t1, now1, true, true).events == seq![BleEvent::AdvertisingStarted],
        spec_start_advertise(
            spec_start_advertise(st, t1, now1, true, true).state,
            t2,
            now2,
            init_ok,
            start_ok,
        ).events == Seq::<BleEvent>::empty(),
        spec_start_advertise(
            spec_start_advertise(st, t1, now1, true, true).state,
            t2,
            now2,
            init_ok,
            start_ok,
        ).state == spec_start_advertise(st, t1, now1, true, true).state,
{
}

/// A successful `StartAdvertise` arms the pairing window at exactly
/// `now + timeout`, leaves the coordinator advertising with a clear error
/// flag, and emits `AdvertisingStarted`.
pub proof fn lemma_start_advertise_arms_window(st: BleTask, timeout_ms: u32, now_ms: u64)
    requires
        !st.ble.advertising,
        now_ms + timeout_ms <= u64::MAX,
    ensures
        spec_start_advertise(st, timeout_ms, now_ms, true, true).state.deadline == Some(
            (now_ms + timeout_ms) as u64,
        ),
        spec_start_advertise(st, timeout_ms, now_ms, true, true).state.ble.advertising,
        !spec_start_advertise(st, timeout_ms, now_ms, true, true).state.ble.error,
        spec_start_advertise(st, timeout_ms, now_ms, true, true).events == seq![
            BleEvent::AdvertisingStarted,
        ],
{
}

/// The pairing window closes by itself within one poll interval of its
/// deadline: if the timer check one interval earlier did not fire and this
/// one does, `AdvertisingStopped` is emitted at a tick that lies in
/// `[deadline, deadline + poll interval)`, and advertising is off with the
/// timer disarmed.
pub proof fn lemma_pairing_window_closes(st: BleTask, d: u64, prev_ms: u64, now_ms: u64)
    requires
        st.deadline == Some(d),
        spec_check_timeout(st, prev_ms).events.len() == 0,
        now_ms - prev_ms == RADIO_POLL_INTERVAL_MS,
        now_ms >= d,
    ensures
        spec_check_timeout(st, now_ms).events == seq![BleEvent::AdvertisingStopped],
        !spec_check_timeout(st, now_ms).state.ble.advertising,
        spec_check_timeout(st, now_ms).state.deadline is None,
        d <= now_ms < d + RADIO_POLL_INTERVAL_MS,
{
}

/// Before the deadline, the timer check does nothing: no event, no state
/// change.
pub proof fn lemma_pairing_window_open_until_deadline(st: BleTask, d: u64, now_ms: u64)
    requires
        st.deadline == Some(d),
        now_ms < d,
    ensures
        spec_check_timeout(st, now_ms).state == st,
        spec_check_timeout(st, now_ms).events == Seq::<BleEvent>::empty(),
{
}

/// A `GetStatus` issued immediately after a successful `StartAdvertise`,
/// with no peer connected, answers `StatusResponse` with `connected` false,
/// `advertising` true and `error` false.
pub proof fn lemma_status_after_start(st: BleTask, timeout_ms: u32, now_ms: u64)
    requires
        !st.ble.advertising,
    ensures
        spec_get_status(spec_start_advertise(st, timeout_ms, now_ms, true, true).state, false)
            .events == seq![
            BleEvent::StatusResponse { connected: false, advertising: true, error: false },
        ],
{
}

/// `Shutdown` always leaves the radio not advertising with the window
/// disarmed and the task terminated, whatever the prior state.
pub proof fn lemma_shutdown_stops_radio(st: BleTask)
    ensures
        !spec_shutdown(st).state.ble.advertising,
        spec_shutdown(st).state.deadline is None,
        !spec_shutdown(st).running,
{
}

} // verus!
