use esp32_devkit_v1::led::{LedCommand, LedRunner, LedState, MIN_BLINK_INTERVAL_MS};

#[test]
fn new_runner_is_off_and_running() {
    let runner = LedRunner::new();
    assert_eq!(runner.blink_interval, None);
    assert!(!runner.phase_on);
    assert!(runner.running);
}

#[test]
fn on_and_off_set_steady_levels() {
    let mut runner = LedRunner::new();
    runner.apply_command(LedCommand::On);
    assert!(runner.phase_on);
    assert_eq!(runner.blink_interval, None);
    runner.apply_command(LedCommand::Off);
    assert!(!runner.phase_on);
    assert_eq!(runner.blink_interval, None);
}

#[test]
fn blink_interval_is_clamped_to_the_floor() {
    let mut runner = LedRunner::new();
    runner.apply_command(LedCommand::Blink { interval_ms: 5 });
    assert_eq!(runner.blink_interval, Some(MIN_BLINK_INTERVAL_MS));
    runner.apply_command(LedCommand::Blink { interval_ms: 500 });
    assert_eq!(runner.blink_interval, Some(500));
}

#[test]
fn blink_toggles_once_per_elapsed_half_period() {
    let mut runner = LedRunner::new();
    runner.apply_command(LedCommand::Blink { interval_ms: 100 });
    // 100 ms half-period at 20 ms ticks: the phase flips every 5th tick.
    let mut flips = 0;
    let mut last = runner.phase_on;
    for _ in 0..25 {
        runner.tick();
        if runner.phase_on != last {
            flips += 1;
            last = runner.phase_on;
        }
    }
    assert_eq!(flips, 5);
}

#[test]
fn steady_levels_never_toggle() {
    let mut runner = LedRunner::new();
    runner.apply_command(LedCommand::On);
    for _ in 0..10 {
        runner.tick();
        assert!(runner.phase_on);
    }
}

#[test]
fn command_change_takes_effect_within_one_tick() {
    let mut runner = LedRunner::new();
    runner.apply_command(LedCommand::Blink { interval_ms: 1000 });
    runner.tick();
    // A new blink command resets the accumulated phase time.
    runner.apply_command(LedCommand::Blink { interval_ms: 40 });
    assert_eq!(runner.elapsed_ms, 0);
    runner.tick();
    assert!(!runner.phase_on);
    runner.tick();
    assert!(runner.phase_on);
}

#[test]
fn shutdown_turns_the_indicator_off() {
    let mut runner = LedRunner::new();
    runner.apply_command(LedCommand::On);
    runner.apply_command(LedCommand::Shutdown);
    assert!(!runner.phase_on);
    assert!(!runner.running);
    assert_eq!(runner.blink_interval, None);
}

#[test]
fn set_state_maps_each_indicator_state() {
    let mut runner = LedRunner::new();
    runner.set_state(LedState::On);
    assert!(runner.phase_on);
    runner.set_state(LedState::Off);
    assert!(!runner.phase_on);
    runner.set_state(LedState::BlinkingFast);
    assert_eq!(runner.blink_interval, Some(200));
    runner.set_state(LedState::BlinkingSlow);
    assert_eq!(runner.blink_interval, Some(1000));
    runner.set_state(LedState::Error);
    assert_eq!(runner.blink_interval, Some(80));
}

#[test]
fn poll_drains_all_commands_then_steps() {
    let mut runner = LedRunner::new();
    let cmds = vec![LedCommand::On, LedCommand::Blink { interval_ms: 20 }];
    let running = runner.poll(&cmds);
    assert!(running);
    // The last command wins, and one tick elapses: 20 ms reaches the 20 ms
    // half-period, so the phase has flipped once.
    assert_eq!(runner.blink_interval, Some(20));
    assert!(runner.phase_on);
}

#[test]
fn poll_stops_at_shutdown_and_drops_the_rest() {
    let mut runner = LedRunner::new();
    let cmds = vec![LedCommand::Shutdown, LedCommand::On];
    let running = runner.poll(&cmds);
    assert!(!running);
    assert!(!runner.phase_on);
}

#[test]
fn led_state_codes_round_trip() {
    for state in [
        LedState::BlinkingFast,
        LedState::BlinkingSlow,
        LedState::On,
        LedState::Off,
        LedState::Error,
    ] {
        assert_eq!(LedState::from(state.to_u8()), state);
    }
    // Unknown codes decode to Off.
    assert_eq!(LedState::from(200), LedState::Off);
}
