use govee_ctl::govee_secrets::Struct;
use govee_ctl::timer::{SimpleTimer, Timer, TimerAction};
use govee_ctl::validate::{replace_timers, validate_candidate, TimerCandidate, TimerError};

fn candidate(action: TimerAction) -> TimerCandidate {
    TimerCandidate { enable: true, hour: 7, minute: 0, days: vec![0], action }
}

#[test]
fn zero_brightness_is_rejected_without_mutation() {
    let mut timers: Vec<Timer> = vec![Timer::new(
        true,
        govee_ctl::timeday::TimeDay::new(9, 0, vec![1]),
        TimerAction::Daylamp,
    )];
    let mut simple_timers: Vec<SimpleTimer> = vec![];
    govee_ctl::timer::process_timers(&timers, &mut simple_timers);

    let submitted = vec![
        candidate(TimerAction::Nightlamp),
        candidate(TimerAction::BrightnessState { brightness: 0 }),
    ];
    let result = replace_timers(&mut timers, &mut simple_timers, &submitted);
    assert_eq!(result, Err(TimerError::BrightnessTooSmall));
    assert_eq!(
        result.unwrap_err().message(),
        "action.params.brightness has to be >= 1"
    );
    // the stored rule list and the derived triggers are untouched
    assert_eq!(timers.len(), 1);
    assert_eq!(*timers[0].get_action(), TimerAction::Daylamp);
    assert_eq!(simple_timers.len(), 1);
    assert_eq!(simple_timers[0].get_description(), "daylamp on");
}

#[test]
fn valid_submission_replaces_and_regenerates() {
    let mut timers: Vec<Timer> = vec![];
    let mut simple_timers: Vec<SimpleTimer> = vec![];
    let submitted = vec![
        candidate(TimerAction::Nightlamp),
        candidate(TimerAction::PowerState { power: false }),
    ];
    let result = replace_timers(&mut timers, &mut simple_timers, &submitted);
    assert_eq!(result, Ok(()));
    assert_eq!(timers.len(), 2);
    assert_eq!(*timers[0].get_action(), TimerAction::Nightlamp);
    assert_eq!(*timers[1].get_action(), TimerAction::PowerState { power: false });
    assert_eq!(simple_timers.len(), 2);
}

#[test]
fn duplicate_rules_are_dropped_on_replace() {
    let mut timers: Vec<Timer> = vec![];
    let mut simple_timers: Vec<SimpleTimer> = vec![];
    let submitted = vec![
        candidate(TimerAction::Nightlamp),
        candidate(TimerAction::Nightlamp),
        candidate(TimerAction::Daylamp),
        candidate(TimerAction::Nightlamp),
    ];
    let result = replace_timers(&mut timers, &mut simple_timers, &submitted);
    assert_eq!(result, Ok(()));
    assert_eq!(timers.len(), 2);
    assert_eq!(*timers[0].get_action(), TimerAction::Nightlamp);
    assert_eq!(*timers[1].get_action(), TimerAction::Daylamp);
}

#[test]
fn timeday_field_errors() {
    let mut c = candidate(TimerAction::Nightlamp);
    c.hour = 24;
    assert_eq!(validate_candidate(&c), Some(TimerError::HourOutOfRange));

    let mut c = candidate(TimerAction::Nightlamp);
    c.minute = 60;
    assert_eq!(validate_candidate(&c), Some(TimerError::MinuteOutOfRange));

    let mut c = candidate(TimerAction::Nightlamp);
    c.days = vec![];
    assert_eq!(validate_candidate(&c), Some(TimerError::DaysEmpty));

    let mut c = candidate(TimerAction::Nightlamp);
    c.days = vec![0, 1, 2, 3, 4, 5, 6, 0];
    assert_eq!(validate_candidate(&c), Some(TimerError::DaysTooMany));

    let mut c = candidate(TimerAction::Nightlamp);
    c.days = vec![0, 7];
    assert_eq!(validate_candidate(&c), Some(TimerError::DayOutOfRange));

    assert_eq!(validate_candidate(&candidate(TimerAction::Nightlamp)), None);
}

#[test]
fn sunrise_parameter_errors() {
    let sunrise = |duration_min, stay_on_for_min, sleep_min, nightlamp_min| {
        candidate(TimerAction::Sunrise { duration_min, stay_on_for_min, sleep_min, nightlamp_min })
    };
    assert_eq!(
        validate_candidate(&sunrise(0, 5, 510, 60)),
        Some(TimerError::SunriseDurationTooShort)
    );
    assert_eq!(
        validate_candidate(&sunrise(20, 5, 10, 60)),
        Some(TimerError::SunriseSleepShorterThanDuration)
    );
    // without a nightlamp phase, a short sleep is no error
    assert_eq!(validate_candidate(&sunrise(20, 5, 10, 0)), None);
    assert_eq!(
        validate_candidate(&sunrise(20, 5, 40000, 60)),
        Some(TimerError::SunriseSleepTooLong)
    );
    assert_eq!(
        validate_candidate(&sunrise(40000, 5, 0, 0)),
        Some(TimerError::SunriseDurationTooLong)
    );
    assert_eq!(
        validate_candidate(&sunrise(20, 5, 510, 40000)),
        Some(TimerError::SunriseNightlampTooLong)
    );
    assert_eq!(
        validate_candidate(&sunrise(20, 40000, 510, 60)),
        Some(TimerError::SunriseStayOnTooLong)
    );
    assert_eq!(validate_candidate(&sunrise(20, 5, 510, 60)), None);
}

#[test]
fn brightness_parameter_errors() {
    assert_eq!(
        validate_candidate(&candidate(TimerAction::BrightnessState { brightness: 0 })),
        Some(TimerError::BrightnessTooSmall)
    );
    assert_eq!(
        validate_candidate(&candidate(TimerAction::BrightnessState { brightness: 101 })),
        Some(TimerError::BrightnessTooLarge)
    );
    assert_eq!(
        validate_candidate(&candidate(TimerAction::BrightnessState { brightness: 100 })),
        None
    );
}

#[test]
fn secrets_round_trip() {
    let secrets = Struct::new(
        String::from("SECRET-REDACTED"),
        String::from("AA:BB:CC:DD:EE:FF:00:11"),
        String::from("H6159"),
    );
    assert_eq!(secrets.api_key(), "SECRET-REDACTED");
    assert_eq!(secrets.device(), "AA:BB:CC:DD:EE:FF:00:11");
    assert_eq!(secrets.model(), "H6159");
}
