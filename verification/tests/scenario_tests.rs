//! End-to-end scenarios run against the whole coordination core with a
//! healthy fake radio adapter.

use esp32_devkit_v1::ble::RadioAdapter;
use esp32_devkit_v1::ble_event::BleEvent;
use esp32_devkit_v1::ble_handle::BleHandle;
use esp32_devkit_v1::ble_task::BleTask;
use esp32_devkit_v1::button::{ButtonMonitor, ButtonEvent};
use esp32_devkit_v1::coordinator::EventCoordinator;
use esp32_devkit_v1::error::Error;
use esp32_devkit_v1::led::{LedCommand, LedRunner};
use esp32_devkit_v1::led_handle::LedHandle;
use esp32_devkit_v1::tasks::Tasks;

struct FakeAdapter {
    connected: u32,
}

impl RadioAdapter for FakeAdapter {
    fn init(&mut self) -> Result<(), Error> {
        Ok(())
    }

    fn start_advertising(&mut self) -> Result<(), Error> {
        Ok(())
    }

    fn stop_advertising(&mut self) -> Result<(), Error> {
        Ok(())
    }

    fn disconnect_all(&mut self) -> Result<(), Error> {
        self.connected = 0;
        Ok(())
    }

    fn connected_count(&mut self) -> u32 {
        self.connected
    }
}

struct System {
    adapter: FakeAdapter,
    tasks: Tasks,
    monitor: ButtonMonitor,
    radio: BleTask,
    led: LedRunner,
    now_ms: u64,
}

impl System {
    fn new() -> System {
        let mut tasks = Tasks::new();
        tasks.set_led_handle(LedHandle::new());
        tasks.set_ble_handle(BleHandle::new());
        tasks.set_button_event_tx(Vec::new());
        tasks.set_ble_event_tx(Vec::new());
        System {
            adapter: FakeAdapter { connected: 0 },
            tasks: tasks,
            monitor: ButtonMonitor::new(),
            radio: BleTask::new(),
            led: LedRunner::new(),
            now_ms: 0,
        }
    }

    /// One 20 ms tick of every task: button poll, router, radio task,
    /// router again (for fresh radio events), indicator.
    fn tick(&mut self, pressed: bool) {
        self.now_ms += 20;
        if let Some(event) = self.monitor.poll(pressed) {
            self.tasks.send_button_event(event);
        }
        EventCoordinator::step(&mut self.tasks);
        let cmds = self.tasks.take_ble_commands();
        let mut events = Vec::new();
        self.radio.poll(&mut self.adapter, &cmds, self.now_ms, &mut events);
        for event in events {
            self.tasks.send_ble_event(event);
        }
        EventCoordinator::step(&mut self.tasks);
        let led_cmds = self.tasks.take_led_commands();
        self.led.poll(&led_cmds);
    }
}

#[test]
fn long_press_pairing_connect_disconnect_scenario() {
    let mut sys = System::new();

    // Hold the button for 3200 ms (160 polls): one LongPress fires at the
    // 3000 ms threshold and the router opens a 60 s pairing window.
    for _ in 0..160 {
        sys.tick(true);
    }
    assert!(sys.radio.ble.advertising);
    assert_eq!(sys.radio.deadline, Some(3000 + 60000));
    // The AdvertisingStarted event led, via GetStatus, to a slow blink.
    assert_eq!(sys.led.blink_interval, Some(500));

    // Release, and let the system idle until t + 10 s, then a peer
    // connects: the connect callback stops advertising and reports.
    while sys.now_ms < 13200 {
        sys.tick(false);
    }
    sys.adapter.connected = 1;
    let mut events = Vec::new();
    sys.radio.on_connected(&mut sys.adapter, &mut events);
    assert_eq!(events, vec![BleEvent::Connected]);
    for event in events {
        sys.tasks.send_ble_event(event);
    }
    assert!(!sys.radio.ble.advertising);
    assert_eq!(sys.radio.deadline, None);
    sys.tick(false);
    sys.tick(false);
    // Connected: the indicator holds steady on.
    assert_eq!(sys.led.blink_interval, None);
    assert!(sys.led.phase_on);

    // At t + 30 s the peer disconnects; advertising was left off, so the
    // status-driven indicator goes off.
    while sys.now_ms < 33200 {
        sys.tick(false);
    }
    sys.adapter.connected = 0;
    let mut events = Vec::new();
    sys.radio.on_disconnected(&mut events);
    assert_eq!(events, vec![BleEvent::Disconnected]);
    for event in events {
        sys.tasks.send_ble_event(event);
    }
    sys.tick(false);
    sys.tick(false);
    assert!(!sys.radio.ble.advertising);
    assert_eq!(sys.led.blink_interval, None);
    assert!(!sys.led.phase_on);
}

#[test]
fn pairing_window_expires_on_its_own() {
    let mut sys = System::new();
    // Open the window by long press; then leave the button alone.
    for _ in 0..150 {
        sys.tick(true);
    }
    assert!(sys.radio.ble.advertising);
    let deadline = sys.radio.deadline.unwrap();
    // Run the system past the deadline with no user action, no connect.
    while sys.now_ms < deadline {
        sys.tick(false);
        if sys.now_ms < deadline {
            assert!(sys.radio.ble.advertising);
        }
    }
    // The first tick at or past the deadline closed the window, within one
    // poll interval.
    assert!(!sys.radio.ble.advertising);
    assert_eq!(sys.radio.deadline, None);
    assert!(sys.now_ms >= deadline && sys.now_ms < deadline + 20);
    // And the status round trip turned the indicator off.
    sys.tick(false);
    assert_eq!(sys.led.blink_interval, None);
    assert!(!sys.led.phase_on);
}

#[test]
fn shutdown_leaves_indicator_off_and_radio_silent() {
    let mut sys = System::new();
    // Put the system in its busiest state: advertising with a blinking
    // indicator.
    for _ in 0..160 {
        sys.tick(true);
    }
    assert!(sys.radio.ble.advertising);
    assert_eq!(sys.led.blink_interval, Some(500));

    // Shut both tasks down.
    let mut events = Vec::new();
    let cmds = vec![esp32_devkit_v1::ble_command::BleCommand::Shutdown];
    let running = sys.radio.poll(&mut sys.adapter, &cmds, sys.now_ms, &mut events);
    assert!(!running);
    assert!(!sys.radio.ble.advertising);
    assert_eq!(sys.radio.deadline, None);

    let led_running = sys.led.poll(&vec![LedCommand::Shutdown]);
    assert!(!led_running);
    assert!(!sys.led.phase_on);
    assert_eq!(sys.led.blink_interval, None);
}

#[test]
fn short_press_changes_nothing() {
    let mut sys = System::new();
    // A 2 s press is below the threshold: no event, no advertising.
    for _ in 0..100 {
        sys.tick(true);
    }
    sys.tick(false);
    assert!(!sys.radio.ble.advertising);
    assert_eq!(sys.led.blink_interval, None);
    assert!(!sys.led.phase_on);
    // The reserved ShortPress event routes to nothing either.
    sys.tasks.send_button_event(ButtonEvent::ShortPress);
    sys.tick(false);
    assert!(!sys.radio.ble.advertising);
}
