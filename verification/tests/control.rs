use zumo_core::drive_plan::{BoundaryDetectedState, ExplorationState};
use zumo_core::motor::{compute_direction_and_throttle, MotorController, MotorDirection};
use zumo_core::pushbutton::{
    ButtonState, ButtonWait, CounterStep, PressCounter, PressWait, WaitStep,
};
use zumo_core::state_machine::{
    boundary_detected_step, calibration_begin, calibration_next_state, degrees_delta,
    exploration_begin, exploration_decision, initialization_next_state, rotation_begin,
    rotation_finish, rotation_step, rotation_target_heading, RotationStep, State,
};

#[test]
fn duty_is_rounded_magnitude() {
    assert_eq!(compute_direction_and_throttle(500), (MotorDirection::Forward, 128));
    assert_eq!(compute_direction_and_throttle(0), (MotorDirection::Forward, 0));
    assert_eq!(compute_direction_and_throttle(1000), (MotorDirection::Forward, 255));
    assert_eq!(compute_direction_and_throttle(-1000), (MotorDirection::Reverse, 255));
    assert_eq!(compute_direction_and_throttle(-500), (MotorDirection::Reverse, 128));
    // out-of-range values are clamped first
    assert_eq!(compute_direction_and_throttle(1200), (MotorDirection::Forward, 255));
    assert_eq!(compute_direction_and_throttle(-1), (MotorDirection::Reverse, 0));
    assert_eq!(compute_direction_and_throttle(2), (MotorDirection::Forward, 1));
}

#[test]
fn motor_slew_reaches_full_power_in_ten_ticks() {
    let mut mc = MotorController::new();
    mc.set_targets(1000, 1000);
    for k in 1i16..=10 {
        let (left, right) = mc.update_tick();
        assert_eq!(mc.left.current_value, 100 * k);
        assert_eq!(mc.right.current_value, 100 * k);
        assert!(left.is_some());
        assert!(right.is_some());
        // the change per tick never exceeds the slew bound
        assert!((mc.left.current_value - 100 * (k - 1)).abs() <= 100);
    }
    // the fifth tick's duty: half power rounds to 128
    let mut mc2 = MotorController::new();
    mc2.set_targets(1000, 1000);
    let mut cmd = None;
    for _ in 0..5 {
        cmd = mc2.update_tick().0;
    }
    assert_eq!(cmd, Some((MotorDirection::Forward, 128)));
    // once settled, a tick leaves the channel alone
    let mut mc3 = MotorController::new();
    let (l, r) = mc3.update_tick();
    assert_eq!(l, None);
    assert_eq!(r, None);
}

#[test]
fn motor_slew_steps_down_toward_lower_target() {
    let mut mc = MotorController::new();
    mc.set_targets(250, -250);
    let (l, r) = mc.update_tick();
    assert_eq!(mc.left.current_value, 100);
    assert_eq!(mc.right.current_value, -100);
    assert_eq!(l, Some((MotorDirection::Forward, 26)));
    assert_eq!(r, Some((MotorDirection::Reverse, 26)));
    mc.update_tick();
    mc.update_tick();
    // within one slew step of the target the value lands exactly on it
    assert_eq!(mc.left.current_value, 250);
    assert_eq!(mc.right.current_value, -250);
}

#[test]
fn scale_targets_reverses_direction() {
    let mut mc = MotorController::new();
    mc.set_targets(500, -300);
    mc.scale_targets(-1000);
    assert_eq!(mc.left_target, -500);
    assert_eq!(mc.right_target, 300);
    mc.scale_targets(500);
    assert_eq!(mc.left_target, -250);
    assert_eq!(mc.right_target, 150);
}

#[test]
fn initialization_chooses_calibration_on_extra_presses() {
    assert_eq!(initialization_next_state(2), State::Calibration);
    assert_eq!(initialization_next_state(5), State::Calibration);
    assert_eq!(initialization_next_state(1), State::Exploration { found_edge: false });
    assert_eq!(initialization_next_state(0), State::Exploration { found_edge: false });
}

#[test]
fn exploration_finds_the_edge_on_two_triggered_channels() {
    let reading = vec![0u16, 600, 600, 0, 0, 0];
    assert_eq!(
        exploration_decision(&reading, false),
        Some(State::Exploration { found_edge: true })
    );
    // with the edge already found, a busy reading keeps backing up
    assert_eq!(exploration_decision(&reading, true), None);
    // one triggered channel is not an edge
    let single = vec![0u16, 600, 0, 0, 0, 0];
    assert_eq!(exploration_decision(&single, false), None);
    // clear of the edge, the robot turns
    let clear = vec![0u16; 6];
    assert_eq!(exploration_decision(&clear, true), Some(State::Rotation { angle: 90 }));
    assert_eq!(exploration_decision(&clear, false), None);
}

#[test]
fn exploration_entry_sets_cruise_targets() {
    let mut mc = MotorController::new();
    exploration_begin(&mut mc, false);
    assert_eq!((mc.left_target, mc.right_target), (500, 500));
    exploration_begin(&mut mc, true);
    assert_eq!((mc.left_target, mc.right_target), (-500, -500));
}

#[test]
fn boundary_reverses_targets_and_returns_to_exploration() {
    let mut mc = MotorController::new();
    mc.set_targets(-500, -500);
    let (next, wait_ms) = boundary_detected_step(&mut mc);
    assert_eq!((mc.left_target, mc.right_target), (500, 500));
    assert_eq!(next, State::Exploration { found_edge: true });
    assert_eq!(wait_ms, 100);
}

#[test]
fn calibration_spins_in_place_and_returns_to_initialization() {
    let mut mc = MotorController::new();
    calibration_begin(&mut mc);
    assert_eq!((mc.left_target, mc.right_target), (-1000, 1000));
    assert_eq!(calibration_next_state(), State::Initialization);
}

#[test]
fn rotation_settles_then_exits_to_exploration() {
    let mut mc = MotorController::new();
    mc.set_targets(500, 500);
    let settle_ms = rotation_begin(&mut mc);
    assert_eq!((mc.left_target, mc.right_target), (0, 0));
    assert_eq!(settle_ms, 500);

    mc.set_targets(100, -100);
    let (next, pause_ms) = rotation_finish(&mut mc);
    assert_eq!((mc.left_target, mc.right_target), (0, 0));
    assert_eq!(next, State::Exploration { found_edge: false });
    assert_eq!(pause_ms, 100);
}

#[test]
fn degrees_delta_stays_in_half_open_range() {
    assert_eq!(degrees_delta(10, 100), 90);
    assert_eq!(degrees_delta(350, 10), 20);
    assert_eq!(degrees_delta(10, 350), -20);
    assert_eq!(degrees_delta(0, 180), 180);
    assert_eq!(degrees_delta(270, 90), 180);
    assert_eq!(degrees_delta(90, 270), 180);
    assert_eq!(degrees_delta(0, 0), 0);
    for from in [0, 45, 179, 180, 181, 359] {
        for to in [0, 45, 179, 180, 181, 359] {
            let d = degrees_delta(from, to);
            assert!(-180 < d && d <= 180);
        }
    }
}

#[test]
fn rotation_follows_the_shrinking_delta() {
    // a quarter turn from heading 10: target 100, speeds taper with the error
    let target = rotation_target_heading(10, 90);
    assert_eq!(target, 100);
    assert_eq!(rotation_step(10, target), RotationStep::Turn { left: 300, right: -300 });
    assert_eq!(rotation_step(55, target), RotationStep::Turn { left: 150, right: -150 });
    assert_eq!(rotation_step(96, target), RotationStep::Done);
    // a negative delta turns the other way
    assert_eq!(rotation_step(130, target), RotationStep::Turn { left: -100, right: 100 });
    // wrap-around of the target heading
    assert_eq!(rotation_target_heading(300, 90), 30);
    assert_eq!(rotation_target_heading(0, -90), 270);
}

#[test]
fn button_wait_debounces_and_times_out() {
    let mut w = ButtonWait::new(ButtonState::Pressed, Some(1000));
    // a high pin keeps polling at the coarse interval
    assert_eq!(w.step(false, 0), WaitStep::Continue(100));
    // a low pin starts the debounce interval
    assert_eq!(w.step(true, 100), WaitStep::Continue(10));
    // a bounce back high starts over
    assert_eq!(w.step(false, 110), WaitStep::Continue(0));
    assert_eq!(w.step(true, 110), WaitStep::Continue(10));
    // a confirmed low finishes true
    assert_eq!(w.step(true, 120), WaitStep::Finished(true));

    let mut late = ButtonWait::new(ButtonState::Released, Some(50));
    assert_eq!(late.step(false, 60), WaitStep::Finished(false));
}

#[test]
fn press_wait_needs_press_then_release() {
    let mut w = PressWait::new(None);
    // press confirmed after the debounce interval
    assert_eq!(w.step(true, 0), WaitStep::Continue(10));
    assert_eq!(w.step(true, 10), WaitStep::Continue(0));
    // release confirmed the same way completes the press
    assert_eq!(w.step(false, 20), WaitStep::Continue(10));
    assert_eq!(w.step(false, 30), WaitStep::Finished(true));

    // a deadline that passes before the press finishes false
    let mut late = PressWait::new(Some(5));
    assert_eq!(late.step(false, 6), WaitStep::Continue(0));
    assert_eq!(late.step(false, 6), WaitStep::Finished(false));
}

#[test]
fn press_counter_counts_complete_cycles() {
    let mut c = PressCounter::new(1000);
    // one full press-release cycle, each level confirmed after a debounce
    assert_eq!(c.step(true, 0), CounterStep::Wait(10));
    assert_eq!(c.step(true, 10), CounterStep::Wait(0));
    assert_eq!(c.step(false, 10), CounterStep::Wait(10));
    assert_eq!(c.step(false, 20), CounterStep::Wait(0));
    assert_eq!(c.count, 1);
    // a second cycle
    assert_eq!(c.step(true, 30), CounterStep::Wait(10));
    assert_eq!(c.step(true, 40), CounterStep::Wait(0));
    assert_eq!(c.step(false, 40), CounterStep::Wait(10));
    assert_eq!(c.step(false, 50), CounterStep::Wait(0));
    assert_eq!(c.count, 2);
    // past the deadline the count so far is the answer
    assert_eq!(c.step(false, 1001), CounterStep::Wait(0));
    assert_eq!(c.step(false, 1001), CounterStep::Done(2));
}

#[test]
fn drive_plan_reverses_once_a_second() {
    let s = ExplorationState::new();
    let mut e = match s {
        zumo_core::drive_plan::State::Exploration(e) => e,
        _ => unreachable!(),
    };
    assert_eq!(e.update(0), (None, Some(500)));
    assert_eq!(e.update(500_000), (None, None));
    let (_, cmd) = e.update(1_000_000);
    assert_eq!(cmd, Some(-500));

    let b = BoundaryDetectedState::new();
    let mut b = match b {
        zumo_core::drive_plan::State::BoundaryDetected(b) => b,
        _ => unreachable!(),
    };
    assert_eq!(b.update(123), (None, Some(0)));
}
