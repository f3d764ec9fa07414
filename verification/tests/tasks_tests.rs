use esp32_devkit_v1::ble_command::BleCommand;
use esp32_devkit_v1::ble_event::BleEvent;
use esp32_devkit_v1::ble_handle::BleHandle;
use esp32_devkit_v1::button::ButtonEvent;
use esp32_devkit_v1::error::{Error, ErrorType};
use esp32_devkit_v1::led::LedCommand;
use esp32_devkit_v1::led_handle::LedHandle;
use esp32_devkit_v1::tasks::Tasks;

#[test]
fn sends_before_registration_are_dropped() {
    let mut tasks = Tasks::new();
    tasks.send_led_command(LedCommand::On);
    tasks.send_ble_command(BleCommand::GetStatus);
    tasks.send_button_event(ButtonEvent::LongPress);
    tasks.send_ble_event(BleEvent::Error);
    assert!(tasks.take_led_commands().is_empty());
    assert!(tasks.take_ble_commands().is_empty());
    assert!(tasks.take_button_events().is_empty());
    assert!(tasks.take_ble_events().is_empty());
}

#[test]
fn each_queue_delivers_fifo() {
    let mut tasks = Tasks::new();
    tasks.set_led_handle(LedHandle::new());
    tasks.set_ble_handle(BleHandle::new());
    tasks.send_led_command(LedCommand::On);
    tasks.send_led_command(LedCommand::Blink { interval_ms: 500 });
    tasks.send_led_command(LedCommand::Off);
    assert_eq!(
        tasks.take_led_commands(),
        vec![LedCommand::On, LedCommand::Blink { interval_ms: 500 }, LedCommand::Off]
    );
    tasks.send_ble_command(BleCommand::StartAdvertise { timeout_ms: 5000 });
    tasks.send_ble_command(BleCommand::StopAdvertise);
    assert_eq!(
        tasks.take_ble_commands(),
        vec![BleCommand::StartAdvertise { timeout_ms: 5000 }, BleCommand::StopAdvertise]
    );
}

#[test]
fn taking_leaves_the_queue_empty_but_registered() {
    let mut tasks = Tasks::new();
    tasks.set_ble_handle(BleHandle::new());
    tasks.send_ble_command(BleCommand::GetStatus);
    assert_eq!(tasks.take_ble_commands().len(), 1);
    assert!(tasks.take_ble_commands().is_empty());
    // Still registered: a later send is delivered.
    tasks.send_ble_command(BleCommand::Shutdown);
    assert_eq!(tasks.take_ble_commands(), vec![BleCommand::Shutdown]);
}

#[test]
fn event_queues_deliver_fifo() {
    let mut tasks = Tasks::new();
    tasks.set_button_event_tx(Vec::new());
    tasks.set_ble_event_tx(Vec::new());
    tasks.send_button_event(ButtonEvent::ShortPress);
    tasks.send_button_event(ButtonEvent::LongPress);
    assert_eq!(tasks.take_button_events(), vec![ButtonEvent::ShortPress, ButtonEvent::LongPress]);
    tasks.send_ble_event(BleEvent::AdvertisingStarted);
    tasks.send_ble_event(BleEvent::Connected);
    assert_eq!(tasks.take_ble_events(), vec![BleEvent::AdvertisingStarted, BleEvent::Connected]);
}

#[test]
fn handles_enqueue_their_commands() {
    let mut led = LedHandle::new();
    led.queue_blinking(250);
    led.queue_on();
    led.queue_off();
    assert_eq!(
        led.take_all(),
        vec![LedCommand::Blink { interval_ms: 250 }, LedCommand::On, LedCommand::Off]
    );

    let mut ble = BleHandle::new();
    assert!(ble.start_advertising(60000).is_ok());
    assert!(ble.stop_advertising().is_ok());
    assert!(ble.shutdown().is_ok());
    assert_eq!(
        ble.take_all(),
        vec![
            BleCommand::StartAdvertise { timeout_ms: 60000 },
            BleCommand::StopAdvertise,
            BleCommand::Shutdown,
        ]
    );
}

#[test]
fn error_constructors_classify() {
    let e = Error::new_esp("radio down");
    assert!(matches!(e.error, ErrorType::Esp));
    assert_eq!(e.message, "radio down");
    let e = Error::new_invalid_state("pin stuck");
    assert!(matches!(e.error, ErrorType::InvalidState));
    assert_eq!(e.message, "pin stuck");
    let e = Error::new_unexpected("spawn failed");
    assert!(matches!(e.error, ErrorType::Unexpected));
    assert_eq!(e.message, "spawn failed");
}

#[test]
fn describe_formats_class_and_message() {
    assert_eq!(Error::new_esp("adv start failed").describe(), "[Esp] adv start failed");
    assert_eq!(Error::new_invalid_state("pin stuck").describe(), "[InvalidState] pin stuck");
    assert_eq!(Error::new_unexpected("spawn failed").describe(), "[Unexpected] spawn failed");
}
