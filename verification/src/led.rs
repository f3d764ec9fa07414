//! Indicator driver: the LED state machine and its command vocabulary.
//!
//! The driver is polled every tick: it first drains its command queue, then
//! performs one physical-output step. Blink timing accumulates elapsed poll
//! ticks rather than sleeping per phase, so a command change takes effect
//! within one tick. The line level it decides is `phase_on`; the caller
//! writes that level to the pin.

use vstd::prelude::*;

verus! {

/// How often the indicator driver is polled, in milliseconds.
pub const LED_POLL_INTERVAL_MS: u32 = 20;

/// The shortest blink half-period accepted, in milliseconds; shorter
/// requests are clamped up to it.
pub const MIN_BLINK_INTERVAL_MS: u32 = 20;

/// The indicator's visual mode, derived from connection truth and never set
/// directly by hardware events. Numeric-encoded for atomic storage.
#[derive(Debug, Clone, Copy, PartialEq, Eq)]
pub enum LedState {
    BlinkingFast,
    BlinkingSlow,
    On,
    Off,
    Error,
}

/// The byte that stands for each indicator state in atomic storage.
pub open spec fn led_state_code(s: LedState) -> u8 {
    match s {
        LedState::BlinkingFast => 0,
        LedState::BlinkingSlow => 1,
        LedState::On => 2,
        LedState::Off => 3,
        LedState::Error => 4,
    }
}

/// The indicator state a stored byte decodes to; unknown codes read as
/// `Off`.
pub open spec fn led_state_from_code(v: u8) -> LedState {
    if v == 0 {
        LedState::BlinkingFast
    } else if v == 1 {
        LedState::BlinkingSlow
    } else if v == 2 {
        LedState::On
    } else if v == 3 {
        LedState::Off
    } else if v == 4 {
        LedState::Error
    } else {
        LedState::Off
    }
}

impl LedState {
    /// The byte to store for this state.
    pub fn to_u8(self) -> (r: u8)
        ensures
            r == led_state_code(self),
    {
        match self {
            LedState::BlinkingFast => 0,
            LedState::BlinkingSlow => 1,
            LedState::On => 2,
            LedState::Off => 3,
            LedState::Error => 4,
        }
    }
}

impl core::convert::From<u8> for LedState {
    /// Decode a stored byte; unknown codes decode to `Off`.
    fn from(v: u8) -> (r: LedState) {
        match v {
            0 => LedState::BlinkingFast,
            1 => LedState::BlinkingSlow,
            2 => LedState::On,
            3 => LedState::Off,
            4 => LedState::Error,
            _ => LedState::Off,
        }
    }
}

impl vstd::std_specs::convert::FromSpecImpl<u8> for LedState {
    open spec fn obeys_from_spec() -> bool {
        true
    }

    open spec fn from_spec(v: u8) -> LedState {
        led_state_from_code(v)
    }
}

/// Storing an indicator state and reading it back yields the same state.
pub proof fn lemma_led_state_round_trip(s: LedState)
    ensures
        led_state_from_code(led_state_code(s)) == s,
{
}

/// A command for the indicator driver.
#[derive(Debug, Clone, Copy, PartialEq, Eq)]
pub enum LedCommand {
    /// Blink with the given half-period, clamped up to
    /// [`MIN_BLINK_INTERVAL_MS`].
    Blink { interval_ms: u32 },
    /// Steady on.
    On,
    /// Steady off.
    Off,
    /// Turn the indicator off and terminate the task.
    Shutdown,
}

/// An event the indicator driver could emit. Reserved: nothing emits these
/// yet, and nothing downstream consumes them.
#[derive(Debug, Clone, Copy, PartialEq, Eq)]
pub enum LedEvent {
    Blink,
    On,
    Off,
}

/// The indicator driver's state: the current blink configuration, the line
/// level currently driven (`phase_on`), the elapsed time within the current
/// blink phase, and whether the task is still running.
#[derive(Debug, Clone, Copy, PartialEq, Eq)]
pub struct LedRunner {
    /// Blink half-period while blinking, `None` while steady.
    pub blink_interval: Option<u32>,
    /// The line level currently driven: `true` is lit.
    pub phase_on: bool,
    /// Milliseconds accumulated within the current blink phase.
    pub elapsed_ms: u32,
    /// `false` once a `Shutdown` command was processed.
    pub running: bool,
}

/// The driver state after processing one command.
pub open spec fn spec_led_apply(st: LedRunner, cmd: LedCommand) -> LedRunner {
    match cmd {
        LedCommand::On => LedRunner {
            blink_interval: None,
            phase_on: true,
            elapsed_ms: st.elapsed_ms,
            running: st.running,
        },
        LedCommand::Off => LedRunner {
            blink_interval: None,
            phase_on: false,
            elapsed_ms: st.elapsed_ms,
            running: st.running,
        },
        LedCommand::Blink { interval_ms } => LedRunner {
            blink_interval: Some(
                if interval_ms < MIN_BLINK_INTERVAL_MS {
                    MIN_BLINK_INTERVAL_MS
                } else {
                    interval_ms
                },
            ),
            phase_on: false,
            elapsed_ms: 0,
            running: st.running,
        },
        LedCommand::Shutdown => LedRunner {
            blink_interval: None,
            phase_on: false,
            elapsed_ms: st.elapsed_ms,
            running: false,
        },
    }
}

/// The driver state after one physical-output step: while blinking,
/// accumulate one poll interval and flip the phase when the half-period has
/// elapsed; while steady, do nothing.
pub open spec fn spec_led_tick(st: LedRunner) -> LedRunner {
    match st.blink_interval {
        Some(interval) => {
            let e: u32 = if st.elapsed_ms > u32::MAX - LED_POLL_INTERVAL_MS {
                u32::MAX
            } else {
                (st.elapsed_ms + LED_POLL_INTERVAL_MS) as u32
            };
            if e >= interval {
                LedRunner {
                    blink_interval: st.blink_interval,
                    phase_on: !st.phase_on,
                    elapsed_ms: 0,
                    running: st.running,
                }
            } else {
                LedRunner {
                    blink_interval: st.blink_interval,
                    phase_on: st.phase_on,
                    elapsed_ms: e,
                    running: st.running,
                }
            }
        },
        None => st,
    }
}

/// The driver state after draining a command queue: commands apply in FIFO
/// order; a `Shutdown` terminates the task, and commands behind it are
/// dropped.
pub open spec fn spec_led_drain(st: LedRunner, cmds: Seq<LedCommand>) -> LedRunner
    decreases cmds.len(),
{
    if cmds.len() == 0 {
        st
    } else {
        let st1 = spec_led_apply(st, cmds[0]);
        if !st1.running {
            st1
        } else {
            spec_led_drain(st1, cmds.skip(1))
        }
    }
}

/// One full poll tick: drain the queue, then one output step if still
/// running.
pub open spec fn spec_led_poll(st: LedRunner, cmds: Seq<LedCommand>) -> LedRunner {
    let st1 = spec_led_drain(st, cmds);
    if st1.running {
        spec_led_tick(st1)
    } else {
        st1
    }
}

/// The blink half-period is never below the clamp floor.
pub open spec fn led_runner_inv(st: LedRunner) -> bool {
    st.blink_interval matches Some(i) ==> i >= MIN_BLINK_INTERVAL_MS
}

/// The indicator command that realizes each indicator state: a steady level
/// or a blink at the state's fixed cadence.
pub open spec fn spec_led_command_for_state(state: LedState) -> LedCommand {
    match state {
        LedState::On => LedCommand::On,
        LedState::Off => LedCommand::Off,
        LedState::BlinkingFast => LedCommand::Blink { interval_ms: 200 },
        LedState::BlinkingSlow => LedCommand::Blink { interval_ms: 1000 },
        LedState::Error => LedCommand::Blink { interval_ms: 80 },
    }
}

impl LedRunner {
    /// A fresh driver: steady off, still running.
    pub fn new() -> (r: LedRunner)
        ensures
            r == (LedRunner {
                blink_interval: None,
                phase_on: false,
                elapsed_ms: 0,
                running: true,
            }),
            led_runner_inv(r),
    {
        LedRunner { blink_interval: None, phase_on: false, elapsed_ms: 0, running: true }
    }

    /// Process one command: set a steady level, reconfigure the blink, or
    /// shut down (which turns the indicator off).
    pub fn apply_command(&mut self, cmd: LedCommand)
        ensures
            *final(self) == spec_led_apply(*old(self), cmd),
            led_runner_inv(*old(self)) ==> led_runner_inv(*final(self)),
            cmd is Shutdown ==> !final(self).phase_on && !final(self).running,
    {
        match cmd {
            LedCommand::On => {
                self.blink_interval = None;
                self.phase_on = true;
            },
            LedCommand::Off => {
                self.blink_interval = None;
                self.phase_on = false;
            },
            LedCommand::Blink { interval_ms } => {
                let clamped = if interval_ms < MIN_BLINK_INTERVAL_MS {
                    MIN_BLINK_INTERVAL_MS
                } else {
                    interval_ms
                };
                self.blink_interval = Some(clamped);
                self.phase_on = false;
                self.elapsed_ms = 0;
            },
            LedCommand::Shutdown => {
                self.blink_interval = None;
                self.phase_on = false;
                self.running = false;
            },
        }
    }

    /// Reconfigure for an indicator state: a steady level for `On`/`Off`, or
    /// the state's blink cadence (fast 200 ms, slow 1000 ms, error 80 ms).
    pub fn set_state(&mut self, state: LedState)
        ensures
            *final(self) == spec_led_apply(*old(self), spec_led_command_for_state(state)),
            led_runner_inv(*old(self)) ==> led_runner_inv(*final(self)),
    {
        match state {
            LedState::On => self.apply_command(LedCommand::On),
            LedState::Off => self.apply_command(LedCommand::Off),
            LedState::BlinkingFast => self.apply_command(LedCommand::Blink { interval_ms: 200 }),
            LedState::BlinkingSlow => self.apply_command(LedCommand::Blink { interval_ms: 1000 }),
            LedState::Error => self.apply_command(LedCommand::Blink { interval_ms: 80 }),
        }
    }

    /// One physical-output step: advance the blink phase if blinking.
    pub fn tick(&mut self)
        ensures
            *final(self) == spec_led_tick(*old(self)),
            led_runner_inv(*old(self)) ==> led_runner_inv(*final(self)),
    {
        match self.blink_interval {
            Some(interval) => {
                let e: u32 = if self.elapsed_ms > u32::MAX - LED_POLL_INTERVAL_MS {
                    u32::MAX
                } else {
                    self.elapsed_ms + LED_POLL_INTERVAL_MS
                };
                if e >= interval {
                    self.phase_on = !self.phase_on;
                    self.elapsed_ms = 0;
                } else {
                    self.elapsed_ms = e;
                }
            },
            None => {},
        }
    }

    /// One full poll tick: drain the given command batch in order, then one
    /// output step if still running. Returns whether the task should keep
    /// running.
    pub fn poll(&mut self, cmds: &Vec<LedCommand>) -> (running: bool)
        requires
            old(self).running,
        ensures
            *final(self) == spec_led_poll(*old(self), cmds@),
            running == final(self).running,
            led_runner_inv(*old(self)) ==> led_runner_inv(*final(self)),
    {
        proof {
            assert(cmds@.skip(0) =~= cmds@);
        }
        let mut i: usize = 0;
        while i < cmds.len()
            invariant
                i <= cmds.len(),
                spec_led_drain(*old(self), cmds@) == spec_led_drain(*self, cmds@.skip(i as int)),
                self.running,
                led_runner_inv(*old(self)) ==> led_runner_inv(*self),
            decreases cmds.len() - i,
        {
            let ghost s_pre = *self;
            assert(cmds@.skip(i as int)[0] == cmds@[i as int]);
            self.apply_command(cmds[i]);
            if !self.running {
                assert(spec_led_drain(s_pre, cmds@.skip(i as int)) == *self);
                return false;
            }
            proof {
                assert(cmds@.skip(i as int).skip(1) =~= cmds@.skip(i as int + 1));
                assert(spec_led_drain(s_pre, cmds@.skip(i as int)) == spec_led_drain(
                    *self,
                    cmds@.skip(i as int + 1),
                ));
            }
            i = i + 1;
        }
        proof {
            assert(cmds@.skip(i as int) =~= Seq::<LedCommand>::empty());
        }
        self.tick();
        true
    }
}

/// A `Shutdown` command always leaves the indicator off — the driven level
/// is low and the blink timer is cancelled — whatever the prior state.
pub proof fn lemma_led_shutdown_turns_off(st: LedRunner)
    ensures
        !spec_led_apply(st, LedCommand::Shutdown).phase_on,
        !spec_led_apply(st, LedCommand::Shutdown).running,
        spec_led_apply(st, LedCommand::Shutdown).blink_interval is None,
{
}

} // verus!
