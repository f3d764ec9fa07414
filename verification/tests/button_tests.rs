use esp32_devkit_v1::button::{
    ButtonEvent, ButtonMonitor, PressEdgeDetector, LONG_PRESS_MS, LONG_PRESS_TICKS,
};

fn run_pressed(monitor: &mut ButtonMonitor, ticks: u32) -> u32 {
    let mut fired = 0;
    for _ in 0..ticks {
        if monitor.poll(true).is_some() {
            fired += 1;
        }
    }
    fired
}

#[test]
fn long_press_fires_exactly_once() {
    let mut monitor = ButtonMonitor::new();
    // 160 polls at 20 ms each: 3200 ms held.
    let fired = run_pressed(&mut monitor, 160);
    assert_eq!(fired, 1);
}

#[test]
fn long_press_fires_at_threshold_tick() {
    let mut monitor = ButtonMonitor::new();
    assert_eq!(LONG_PRESS_TICKS, 150);
    for _ in 0..LONG_PRESS_TICKS - 1 {
        assert_eq!(monitor.poll(true), None);
    }
    assert_eq!(monitor.poll(true), Some(ButtonEvent::LongPress));
    assert_eq!(monitor.poll(true), None);
}

#[test]
fn short_press_fires_nothing() {
    let mut monitor = ButtonMonitor::new();
    // 149 polls: 2980 ms, just under the 3000 ms threshold.
    let fired = run_pressed(&mut monitor, LONG_PRESS_TICKS - 1);
    assert_eq!(fired, 0);
    // Release: still nothing.
    assert_eq!(monitor.poll(false), None);
}

#[test]
fn release_resets_the_monitor() {
    let mut monitor = ButtonMonitor::new();
    run_pressed(&mut monitor, 200);
    assert_eq!(monitor.poll(false), None);
    assert_eq!(monitor.pressed_ms, 0);
    assert!(!monitor.fired);
    // A second full press fires exactly once again.
    let fired = run_pressed(&mut monitor, 151);
    assert_eq!(fired, 1);
}

#[test]
fn held_time_stops_growing_at_threshold() {
    let mut monitor = ButtonMonitor::new();
    run_pressed(&mut monitor, 400);
    assert_eq!(monitor.pressed_ms, LONG_PRESS_MS);
    assert!(monitor.fired);
}

#[test]
fn two_separate_presses_fire_twice_in_total() {
    let mut monitor = ButtonMonitor::new();
    let mut fired = run_pressed(&mut monitor, 155);
    monitor.poll(false);
    fired += run_pressed(&mut monitor, 155);
    assert_eq!(fired, 2);
}

#[test]
fn confirmed_edge_fires_once() {
    let mut detector = PressEdgeDetector::new();
    assert!(detector.poll_pressed_edge(true, true));
    // Still held: no further edge.
    assert!(!detector.poll_pressed_edge(true, true));
    // Release, then press again: a second edge.
    assert!(!detector.poll_pressed_edge(false, false));
    assert!(detector.poll_pressed_edge(true, true));
}

#[test]
fn bounce_without_confirmation_is_ignored() {
    let mut detector = PressEdgeDetector::new();
    assert!(!detector.poll_pressed_edge(true, false));
    assert!(detector.last_low);
}
