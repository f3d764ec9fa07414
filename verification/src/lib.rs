//! Runtime coordination core for a small device with one status LED, one
//! push-button, and a short-range radio advertising interface.
//!
//! The crate holds the multi-task coordination logic: the shared-state hub
//! that routes commands and events between tasks, the radio coordinator with
//! its bounded pairing window, the button long-press detector, the LED
//! indicator state machine, and the event router that wires them together.
//! Hardware access (pins, the radio stack, thread scheduling) stays outside,
//! behind plain values and the radio adapter trait.

pub mod ble;
pub mod ble_command;
pub mod ble_event;
pub mod ble_handle;
pub mod ble_state;
pub mod ble_task;
pub mod config;
pub mod coordinator;
pub mod button;
pub mod error;
pub mod led;
pub mod led_handle;
pub mod tasks;
