//! Button monitor: debounces the physical input line and detects a long
//! press.
//!
//! The monitor is polled at a fixed cadence with the current (debounced)
//! line reading. While the line reads "pressed" it accumulates held time;
//! when the held time first reaches the long-press threshold it emits exactly
//! one [`ButtonEvent::LongPress`], and emits nothing more until the button is
//! released. A release resets the accumulator, so separate presses are
//! independent. A press shorter than one poll interval is invisible; the poll
//! interval is the debounce floor.

use vstd::prelude::*;

verus! {

/// How often the input line is polled, in milliseconds.
pub const BUTTON_POLL_INTERVAL_MS: u32 = 20;

/// How long the line must read "pressed", in milliseconds, before a long
/// press fires.
pub const LONG_PRESS_MS: u32 = 3000;

/// Number of consecutive "pressed" polls after which a long press fires.
pub const LONG_PRESS_TICKS: u32 = LONG_PRESS_MS / BUTTON_POLL_INTERVAL_MS;

/// An event emitted by the button monitor.
#[derive(Debug, Clone, Copy, PartialEq, Eq)]
pub enum ButtonEvent {
    /// A press released before the long-press threshold. Reserved: nothing
    /// downstream reacts to it yet, and the monitor never emits it.
    ShortPress,
    /// The button was held continuously past the long-press threshold.
    LongPress,
}

/// The long-press detector: accumulated held time and whether the event
/// already fired during the current press.
#[derive(Debug, Clone, Copy, PartialEq, Eq)]
pub struct ButtonMonitor {
    /// Milliseconds the line has read "pressed", accumulated by poll
    /// interval, no longer grown once the threshold is reached.
    pub pressed_ms: u32,
    /// Whether `LongPress` already fired during the current press.
    pub fired: bool,
}

/// The monitor state after one poll with line reading `pressed`.
pub open spec fn spec_button_poll_state(st: ButtonMonitor, pressed: bool) -> ButtonMonitor {
    if pressed {
        let ms: u32 = if st.pressed_ms < LONG_PRESS_MS {
            (st.pressed_ms + BUTTON_POLL_INTERVAL_MS) as u32
        } else {
            st.pressed_ms
        };
        ButtonMonitor { pressed_ms: ms, fired: st.fired || ms >= LONG_PRESS_MS }
    } else {
        ButtonMonitor { pressed_ms: 0, fired: false }
    }
}

/// The event emitted by one poll with line reading `pressed`: `LongPress`
/// exactly when the accumulated held time first reaches the threshold.
pub open spec fn spec_button_poll_event(st: ButtonMonitor, pressed: bool) -> Option<ButtonEvent> {
    if pressed && !st.fired && spec_button_poll_state(st, pressed).pressed_ms >= LONG_PRESS_MS {
        Some(ButtonEvent::LongPress)
    } else {
        None
    }
}

/// States the monitor can actually be in: `fired` records precisely whether
/// the threshold has been reached during the current press.
pub open spec fn button_monitor_inv(st: ButtonMonitor) -> bool {
    st.fired <==> st.pressed_ms >= LONG_PRESS_MS
}

/// How many `LongPress` events a run of polls emits from state `st`.
pub open spec fn spec_button_fire_count(st: ButtonMonitor, polls: Seq<bool>) -> nat
    decreases polls.len(),
{
    if polls.len() == 0 {
        0
    } else {
        (if spec_button_poll_event(st, polls[0]) is Some {
            1nat
        } else {
            0nat
        }) + spec_button_fire_count(spec_button_poll_state(st, polls[0]), polls.skip(1))
    }
}

/// The monitor state after a run of polls from state `st`.
pub open spec fn spec_button_run(st: ButtonMonitor, polls: Seq<bool>) -> ButtonMonitor
    decreases polls.len(),
{
    if polls.len() == 0 {
        st
    } else {
        spec_button_run(spec_button_poll_state(st, polls[0]), polls.skip(1))
    }
}

impl ButtonMonitor {
    /// A fresh monitor: nothing held, nothing fired.
    pub fn new() -> (r: ButtonMonitor)
        ensures
            r == (ButtonMonitor { pressed_ms: 0, fired: false }),
            button_monitor_inv(r),
    {
        ButtonMonitor { pressed_ms: 0, fired: false }
    }

    /// One poll tick with the current line reading. Emits `LongPress` exactly
    /// when the held time first reaches the threshold; a release resets the
    /// monitor and emits nothing.
    pub fn poll(&mut self, pressed: bool) -> (ev: Option<ButtonEvent>)
        ensures
            *final(self) == spec_button_poll_state(*old(self), pressed),
            ev == spec_button_poll_event(*old(self), pressed),
            !pressed ==> *final(self) == (ButtonMonitor { pressed_ms: 0, fired: false })
                && ev is None,
            button_monitor_inv(*old(self)) ==> button_monitor_inv(*final(self)),
    {
        if pressed {
            if self.pressed_ms < LONG_PRESS_MS {
                self.pressed_ms = self.pressed_ms + BUTTON_POLL_INTERVAL_MS;
            }
            if !self.fired && self.pressed_ms >= LONG_PRESS_MS {
                self.fired = true;
                Some(ButtonEvent::LongPress)
            } else {
                if self.pressed_ms >= LONG_PRESS_MS {
                    self.fired = true;
                }
                None
            }
        } else {
            self.pressed_ms = 0;
            self.fired = false;
            None
        }
    }
}

/// The simple press-edge debouncer: latches the previous line reading and
/// reports a press edge only when a "pressed" reading that follows a
/// released one is confirmed by a re-read taken one debounce delay later.
/// The caller supplies both readings; only the decision lives here.
#[derive(Debug, Clone, Copy, PartialEq, Eq)]
pub struct PressEdgeDetector {
    /// The latched line reading of the previous poll: `true` is pressed.
    pub last_low: bool,
}

/// The detector state after one poll: a confirmed edge latches "pressed";
/// otherwise the current reading is latched as it is.
pub open spec fn spec_edge_state(
    st: PressEdgeDetector,
    now_low: bool,
    confirmed_low: bool,
) -> PressEdgeDetector {
    if now_low && !st.last_low && confirmed_low {
        PressEdgeDetector { last_low: true }
    } else {
        PressEdgeDetector { last_low: now_low }
    }
}

/// Whether one poll reports a press edge: the line just went from released
/// to pressed and the confirming re-read still says pressed.
pub open spec fn spec_edge_fires(st: PressEdgeDetector, now_low: bool, confirmed_low: bool) -> bool {
    now_low && !st.last_low && confirmed_low
}

impl PressEdgeDetector {
    /// A fresh detector: the line is taken as released.
    pub fn new() -> (r: PressEdgeDetector)
        ensures
            r == (PressEdgeDetector { last_low: false }),
    {
        PressEdgeDetector { last_low: false }
    }

    /// One poll: `now_low` is the current line reading, `confirmed_low` a
    /// re-read taken one debounce delay later (consulted only on an edge
    /// candidate). Returns `true` only at the confirmed moment of pressing.
    pub fn poll_pressed_edge(&mut self, now_low: bool, confirmed_low: bool) -> (edge: bool)
        ensures
            edge == spec_edge_fires(*old(self), now_low, confirmed_low),
            *final(self) == spec_edge_state(*old(self), now_low, confirmed_low),
    {
        let edge = now_low && !self.last_low;
        if edge && confirmed_low {
            self.last_low = true;
            return true;
        }
        self.last_low = now_low;
        false
    }
}

/// During one continuous press of `n` polls, `LongPress` fires exactly once
/// if the press reaches the threshold from the given state, and never
/// otherwise.
pub proof fn lemma_press_run_fires(st: ButtonMonitor, n: nat)
    requires
        button_monitor_inv(st),
    ensures
        spec_button_fire_count(st, Seq::new(n, |i: int| true)) == if !st.fired
            && st.pressed_ms + n * BUTTON_POLL_INTERVAL_MS >= LONG_PRESS_MS {
            1nat
        } else {
            0nat
        },
    decreases n,
{
    let polls = Seq::new(n, |i: int| true);
    if n == 0 {
    } else {
        let st1 = spec_button_poll_state(st, true);
        assert(polls.skip(1) =~= Seq::new((n - 1) as nat, |i: int| true));
        lemma_press_run_fires(st1, (n - 1) as nat);
    }
}

/// For every sequence of button polls that is one continuous press, a
/// `LongPress` event fires exactly once if the press lasts at least the
/// long-press threshold, and zero times for a shorter press.
pub proof fn lemma_long_press_exactly_once(n: nat)
    ensures
        spec_button_fire_count(
            (ButtonMonitor { pressed_ms: 0, fired: false }),
            Seq::new(n, |i: int| true),
        ) == if n >= LONG_PRESS_TICKS {
            1nat
        } else {
            0nat
        },
{
    lemma_press_run_fires(ButtonMonitor { pressed_ms: 0, fired: false }, n);
}

/// A release poll returns the monitor to its initial state and emits
/// nothing, so each continuous press is counted independently of every
/// earlier press.
pub proof fn lemma_release_resets(st: ButtonMonitor)
    ensures
        spec_button_poll_state(st, false) == (ButtonMonitor { pressed_ms: 0, fired: false }),
        spec_button_poll_event(st, false) is None,
{
}

/// Splitting a run of polls splits its event count: the second part counts
/// from wherever the first part left the monitor.
pub proof fn lemma_fire_count_append(st: ButtonMonitor, a: Seq<bool>, b: Seq<bool>)
    ensures
        spec_button_fire_count(st, a + b) == spec_button_fire_count(st, a)
            + spec_button_fire_count(spec_button_run(st, a), b),
    decreases a.len(),
{
    if a.len() == 0 {
        assert(a + b =~= b);
    } else {
        let st1 = spec_button_poll_state(st, a[0]);
        assert((a + b)[0] == a[0]);
        assert((a + b).skip(1) =~= a.skip(1) + b);
        lemma_fire_count_append(st1, a.skip(1), b);
    }
}

/// A run that ends with a release leaves the monitor in its initial state.
/// Together with the two lemmas above, this decomposes any sequence of
/// button polls into its continuous presses: each press that reaches the
/// threshold contributes exactly one `LongPress`, every other poll
/// contributes none.
pub proof fn lemma_run_ending_released_resets(st: ButtonMonitor, polls: Seq<bool>)
    requires
        polls.len() > 0,
        polls[polls.len() - 1] == false,
    ensures
        spec_button_run(st, polls) == (ButtonMonitor { pressed_ms: 0, fired: false }),
    decreases polls.len(),
{
    if polls.len() == 1 {
        let st1 = spec_button_poll_state(st, polls[0]);
        assert(spec_button_run(st, polls) == spec_button_run(st1, polls.skip(1)));
        assert(polls.skip(1).len() == 0);
        assert(spec_button_run(st1, polls.skip(1)) == st1);
    } else {
        assert(polls.skip(1)[polls.skip(1).len() - 1] == polls[polls.len() - 1]);
        lemma_run_ending_released_resets(spec_button_poll_state(st, polls[0]), polls.skip(1));
    }
}

} // verus!
