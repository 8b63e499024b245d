use std::collections::VecDeque;
use govee_ctl::fn_queue::Callback;
use govee_ctl::govee::SetState;
use govee_ctl::timeday::TimeDay;
use govee_ctl::timer::{check_timers, process_timers, SimpleTimer, Timer, TimerAction};

#[test]
fn sunrise_timer_processing() {
    let mut simple_timers: Vec<SimpleTimer> = vec![];
    let timers: Vec<Timer> = vec![Timer::new(
        true,
        TimeDay::new(7, 0, vec![0]),
        TimerAction::Sunrise {
            duration_min: 20,
            stay_on_for_min: 5,
            sleep_min: (60 * 8) + 30,
            nightlamp_min: 60,
        },
    )];
    process_timers(&timers, &mut simple_timers);
    assert_eq!(simple_timers.len(), 4);
    assert!(simple_timers.iter().any(|t| *t.get_timeday() == TimeDay::new(21, 30, vec![6])));
    assert!(simple_timers.iter().any(|t| *t.get_timeday() == TimeDay::new(22, 30, vec![6])));
    assert!(simple_timers.iter().any(|t| *t.get_timeday() == TimeDay::new(6, 40, vec![0])));
    assert!(simple_timers.iter().any(|t| *t.get_timeday() == TimeDay::new(7, 5, vec![0])));
}

#[test]
fn sunrise_expansion_order_and_callbacks() {
    let mut simple_timers: Vec<SimpleTimer> = vec![];
    let timers: Vec<Timer> = vec![Timer::new(
        true,
        TimeDay::new(7, 0, vec![0]),
        TimerAction::Sunrise {
            duration_min: 20,
            stay_on_for_min: 5,
            sleep_min: (60 * 8) + 30,
            nightlamp_min: 60,
        },
    )];
    process_timers(&timers, &mut simple_timers);
    assert_eq!(simple_timers[0].get_description(), "nightlamp on");
    assert_eq!(simple_timers[0].get_function(), Callback::Nightlamp);
    assert_eq!(simple_timers[1].get_description(), "nightlamp off");
    assert_eq!(
        simple_timers[1].get_function(),
        Callback::Append { state: SetState::Power(false) }
    );
    assert_eq!(simple_timers[2].get_description(), "sunrise");
    assert_eq!(simple_timers[2].get_function(), Callback::RunSunrise { duration_min: 20 });
    assert_eq!(simple_timers[3].get_description(), "turn off");
    assert_eq!(simple_timers[3].get_function(), Callback::TurnOff);
}

#[test]
fn sunrise_without_nightlamp_expands_to_two() {
    let mut simple_timers: Vec<SimpleTimer> = vec![];
    let timers: Vec<Timer> = vec![Timer::new(
        true,
        TimeDay::new(7, 0, vec![0]),
        TimerAction::Sunrise {
            duration_min: 20,
            stay_on_for_min: 5,
            sleep_min: 0,
            nightlamp_min: 0,
        },
    )];
    process_timers(&timers, &mut simple_timers);
    assert_eq!(simple_timers.len(), 2);
    assert_eq!(simple_timers[0].get_description(), "sunrise");
    assert_eq!(simple_timers[1].get_description(), "turn off");
}

#[test]
fn disabled_timer_expands_to_nothing() {
    let mut simple_timers: Vec<SimpleTimer> = vec![];
    let timers: Vec<Timer> = vec![Timer::new(
        false,
        TimeDay::new(7, 0, vec![0]),
        TimerAction::Nightlamp,
    )];
    process_timers(&timers, &mut simple_timers);
    assert_eq!(simple_timers.len(), 0);
}

#[test]
fn immediate_actions_expand_at_anchor() {
    let mut simple_timers: Vec<SimpleTimer> = vec![];
    let anchor = TimeDay::new(10, 30, vec![2]);
    let timers: Vec<Timer> = vec![
        Timer::new(true, anchor.duplicate(), TimerAction::Reminder),
        Timer::new(true, anchor.duplicate(), TimerAction::Daylamp),
        Timer::new(true, anchor.duplicate(), TimerAction::PowerState { power: true }),
        Timer::new(true, anchor.duplicate(), TimerAction::BrightnessState { brightness: 40 }),
        Timer::new(true, anchor.duplicate(), TimerAction::ColorState { r: 1, g: 2, b: 3 }),
    ];
    process_timers(&timers, &mut simple_timers);
    assert_eq!(simple_timers.len(), 5);
    for t in simple_timers.iter() {
        assert_eq!(*t.get_timeday(), anchor);
    }
    assert_eq!(simple_timers[0].get_function(), Callback::Reminder);
    assert_eq!(simple_timers[1].get_function(), Callback::Daylamp);
    assert_eq!(
        simple_timers[2].get_function(),
        Callback::Append { state: SetState::Power(true) }
    );
    assert_eq!(
        simple_timers[3].get_function(),
        Callback::Append { state: SetState::Brightness(40) }
    );
    assert_eq!(
        simple_timers[4].get_function(),
        Callback::Append { state: SetState::Color(1, 2, 3) }
    );
}

#[test]
fn matching_timer_enqueues_callback() {
    let mut simple_timers: Vec<SimpleTimer> = vec![];
    let timers: Vec<Timer> = vec![Timer::new(
        true,
        TimeDay::new(10, 0, vec![0, 3]),
        TimerAction::PowerState { power: true },
    )];
    process_timers(&timers, &mut simple_timers);

    let mut function_queue: VecDeque<Callback> = VecDeque::new();
    let mut last_checked = TimeDay::new(9, 59, vec![3]);
    let now = TimeDay::new(10, 0, vec![3]);
    check_timers(&simple_timers, &mut function_queue, &mut last_checked, &now);
    assert_eq!(function_queue.len(), 1);
    assert_eq!(
        function_queue[0],
        Callback::Append { state: SetState::Power(true) }
    );
    assert_eq!(last_checked, now);
}

#[test]
fn second_check_in_same_minute_enqueues_nothing() {
    let mut simple_timers: Vec<SimpleTimer> = vec![];
    let timers: Vec<Timer> = vec![Timer::new(
        true,
        TimeDay::new(10, 0, vec![3]),
        TimerAction::PowerState { power: false },
    )];
    process_timers(&timers, &mut simple_timers);

    let mut function_queue: VecDeque<Callback> = VecDeque::new();
    let mut last_checked = TimeDay::new(9, 59, vec![3]);
    let now = TimeDay::new(10, 0, vec![3]);
    check_timers(&simple_timers, &mut function_queue, &mut last_checked, &now);
    assert_eq!(function_queue.len(), 1);
    check_timers(&simple_timers, &mut function_queue, &mut last_checked, &now);
    assert_eq!(function_queue.len(), 1);
    assert_eq!(last_checked, now);
}

#[test]
fn non_matching_timer_enqueues_nothing() {
    let mut simple_timers: Vec<SimpleTimer> = vec![];
    let timers: Vec<Timer> = vec![Timer::new(
        true,
        TimeDay::new(10, 0, vec![3]),
        TimerAction::PowerState { power: false },
    )];
    process_timers(&timers, &mut simple_timers);

    let mut function_queue: VecDeque<Callback> = VecDeque::new();
    let mut last_checked = TimeDay::new(9, 58, vec![3]);
    // same hour and minute, but a day the timer does not cover
    let now = TimeDay::new(10, 0, vec![4]);
    check_timers(&simple_timers, &mut function_queue, &mut last_checked, &now);
    assert_eq!(function_queue.len(), 0);
    assert_eq!(last_checked, now);
}
