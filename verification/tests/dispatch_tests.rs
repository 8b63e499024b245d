use std::collections::VecDeque;
use govee_ctl::dispatch::{dispatch_step, front_state, prepare_cycle};
use govee_ctl::fn_queue::Callback;
use govee_ctl::govee::{clamped_brightness, power_value, GetState, SetState};
use govee_ctl::timeday::TimeDay;
use govee_ctl::timer::{process_timers, SimpleTimer, Timer, TimerAction};

#[test]
fn failed_apply_keeps_front_across_cycles() {
    let mut queue: VecDeque<SetState> = VecDeque::new();
    queue.push_back(SetState::Brightness(10));
    queue.push_back(SetState::Power(false));
    for _ in 0..5 {
        assert_eq!(front_state(&queue), Some(SetState::Brightness(10)));
        dispatch_step(&mut queue, false);
        assert_eq!(queue.len(), 2);
    }
    assert_eq!(front_state(&queue), Some(SetState::Brightness(10)));
}

#[test]
fn successful_apply_pops_front_only() {
    let mut queue: VecDeque<SetState> = VecDeque::new();
    queue.push_back(SetState::Brightness(10));
    queue.push_back(SetState::Power(false));
    dispatch_step(&mut queue, true);
    assert_eq!(queue.len(), 1);
    assert_eq!(front_state(&queue), Some(SetState::Power(false)));
    dispatch_step(&mut queue, true);
    assert_eq!(queue.len(), 0);
    assert_eq!(front_state(&queue), None);
    // a successful cycle against an empty queue changes nothing
    dispatch_step(&mut queue, true);
    assert_eq!(queue.len(), 0);
}

#[test]
fn cycle_moves_matched_trigger_into_pending_states() {
    let mut simple_timers: Vec<SimpleTimer> = vec![];
    let timers: Vec<Timer> = vec![Timer::new(
        true,
        TimeDay::new(6, 30, vec![5]),
        TimerAction::Nightlamp,
    )];
    process_timers(&timers, &mut simple_timers);

    let mut function_queue: VecDeque<Callback> = VecDeque::new();
    let mut last_checked = TimeDay::new(6, 29, vec![5]);
    let now = TimeDay::new(6, 30, vec![5]);
    let mut govee_queue: VecDeque<SetState> = VecDeque::new();
    prepare_cycle(
        &simple_timers,
        &mut function_queue,
        &mut last_checked,
        &now,
        &mut govee_queue,
    );
    assert_eq!(function_queue.len(), 0);
    assert_eq!(last_checked, now);
    assert_eq!(govee_queue.len(), 2);
    assert_eq!(govee_queue[0], SetState::Brightness(1));
    assert_eq!(govee_queue[1], SetState::Color(255, 181, 128));
}

#[test]
fn command_names_match_vendor_api() {
    assert_eq!(SetState::Color(1, 2, 3).command_name(), "color");
    assert_eq!(SetState::Brightness(50).command_name(), "brightness");
    assert_eq!(SetState::Power(true).command_name(), "turn");
}

#[test]
fn brightness_is_clamped_to_vendor_range() {
    assert_eq!(clamped_brightness(0), 1);
    assert_eq!(clamped_brightness(1), 1);
    assert_eq!(clamped_brightness(55), 55);
    assert_eq!(clamped_brightness(100), 100);
    assert_eq!(clamped_brightness(255), 100);
}

#[test]
fn power_values_match_vendor_api() {
    assert_eq!(power_value(true), "on");
    assert_eq!(power_value(false), "off");
}

#[test]
fn get_state_holds_plain_fields() {
    let state = GetState { r: 10, g: 20, b: 30, brightness: 70, power: true };
    assert_eq!(state.r, 10);
    assert_eq!(state.g, 20);
    assert_eq!(state.b, 30);
    assert_eq!(state.brightness, 70);
    assert!(state.power);
}
