use pigeon::control::{
    finish_cycle, halt_altitude, is_above, valve_on_off, ControlState, Pigeon, ValveCommand,
};

#[test]
fn halt_altitude_exact_value() {
    // 50 - (|-20| + 69)^2 / (2 * 100) = 50 - 7921 / 200 = 50 - 39.
    assert_eq!(halt_altitude(50, -20, 100), 11);
    // At rest the prediction still subtracts the correction term.
    assert_eq!(halt_altitude(1000, 0, 100), 1000 - (69 * 69) / 200);
}

#[test]
fn is_above_is_a_strict_comparison() {
    assert!(is_above(14, 8, 5));
    assert!(!is_above(13, 8, 5));
    assert!(!is_above(8, 8, 5));
    assert!(is_above(-2, -10, 5));
}

/// Altitude samples [100, 100, 90]: the unchanged second sample keeps the
/// velocity estimate, and the drop to 90 turns it negative.
#[test]
fn velocity_estimate_holds_then_turns_negative() {
    let pigeon = Pigeon::new(100, 5, 8);
    let mut state = ControlState::new(100);
    let first_velocity = state.curr_velocity;

    pigeon.control_step(&mut state, 100, false, 0);
    assert_eq!(state.curr_velocity, first_velocity);

    pigeon.control_step(&mut state, 90, false, 1);
    assert!(state.curr_velocity < 0);
    assert_eq!(state.curr_velocity, -1000); // (90 - 100) cm over 10 ms is -1000 cm/s
}

/// At the target altitude with target 8 and tolerance 5 the vehicle sits
/// below the trigger band: the valves stay off even with nothing falling.
#[test]
fn below_the_band_valves_stay_off() {
    let pigeon = Pigeon::new(100, 5, 8);
    let mut state = ControlState::new(8);
    let cmd = pigeon.control_step(&mut state, 8, false, 0);
    assert_eq!(cmd, ValveCommand::Release);
    assert!(!state.is_boosting);
    assert_eq!(state.falling_since, None);
}

/// Falling at altitude 50 with velocity -20 and a deceleration too small
/// to stop above the commit band: the valves engage within that cycle.
#[test]
fn undershooting_fall_engages_within_the_cycle() {
    let pigeon = Pigeon::new(100, 5, 8);
    let mut state = ControlState {
        last_altitude: 50,
        curr_velocity: -20,
        falling_since: None,
        is_boosting: false,
    };
    let cmd = pigeon.control_step(&mut state, 50, true, 7);
    // Predicted halt altitude 11 does not clear 8 + 5 + 2.
    assert_eq!(cmd, ValveCommand::Engage);
    assert!(state.is_boosting);
    assert_eq!(state.falling_since, Some(7));
}

/// A fall whose prediction still clears the commit band holds off: no
/// premature engagement, but the fall start is recorded.
#[test]
fn sufficient_deceleration_holds_off() {
    let pigeon = Pigeon::new(1000, 5, 8);
    let mut state = ControlState {
        last_altitude: 100000,
        curr_velocity: -20,
        falling_since: None,
        is_boosting: false,
    };
    let cmd = pigeon.control_step(&mut state, 100000, true, 3);
    // 100000 - 7921 / 2000 = 99997 clears 8 + 5 + 2.
    assert_eq!(cmd, ValveCommand::Hold);
    assert!(!state.is_boosting);
    assert_eq!(state.falling_since, Some(3));
}

/// Once the vehicle descends to the band, the valves are off and all fall
/// tracking is cleared, regardless of prior boosting state.
#[test]
fn descending_into_the_band_resets_everything() {
    let pigeon = Pigeon::new(100, 5, 8);
    let mut state = ControlState {
        last_altitude: 20,
        curr_velocity: -500,
        falling_since: Some(99),
        is_boosting: true,
    };
    let cmd = pigeon.control_step(&mut state, 10, true, 100);
    assert_eq!(cmd, ValveCommand::Release);
    assert!(!state.is_boosting);
    assert_eq!(state.falling_since, None);
    assert_eq!(state.last_altitude, 10);
}

/// An overrunning cycle is reported and not slept, and the valve decision
/// of that same cycle stands: the overrun never suppresses it.
#[test]
fn overrun_is_reported_and_the_decision_stands() {
    let pigeon = Pigeon::new(100, 5, 8);
    let mut state = ControlState {
        last_altitude: 50,
        curr_velocity: -20,
        falling_since: None,
        is_boosting: false,
    };
    let cmd = pigeon.control_step(&mut state, 50, true, 0);
    let end = finish_cycle(17, 10);
    assert!(end.overrun);
    assert_eq!(end.sleep_ms, 0);
    assert_eq!(cmd, ValveCommand::Engage); // the decision is applied regardless
    assert!(state.is_boosting);

    let quiet = finish_cycle(4, 10);
    assert!(!quiet.overrun);
    assert_eq!(quiet.sleep_ms, 6);
    let exact = finish_cycle(10, 10);
    assert!(!exact.overrun);
    assert_eq!(exact.sleep_ms, 0);
}

#[test]
fn duty_cycle_split_covers_the_cycle() {
    assert_eq!(valve_on_off(150, 400), (60, 90));
    assert_eq!(valve_on_off(150, 0), (0, 150));
    assert_eq!(valve_on_off(150, 1000), (150, 0));
    let (on, off) = valve_on_off(10, 333);
    assert_eq!(on + off, 10);
    assert_eq!(on, 3);
}
