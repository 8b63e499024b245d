use vstd::prelude::*;
use vstd::arithmetic::div_mod::*;
use std::collections::VecDeque;
use crate::fn_queue::{self, Callback};
use crate::govee::SetState;
use crate::timeday::{contains_day, spec_shift, TimeDay, TimeDayModel};

verus! {

/// The action a recurring rule performs when its anchor time comes.
#[derive(Clone, Copy, Debug, PartialEq, Eq, Structural)]
pub enum TimerAction {
    /// Alarm for waking up with a sunrise. The sunrise finishes on the
    /// anchor time and the lamp then stays on for `stay_on_for_min` before
    /// turning off, with brightness back at its default. When
    /// `nightlamp_min` is positive, the nightlamp is on for that long
    /// beforehand, with `sleep_min` between the nightlamp turning off and
    /// the sunrise finishing.
    Sunrise { duration_min: u16, stay_on_for_min: u16, sleep_min: u16, nightlamp_min: u16 },
    /// Show the reminder scene.
    Reminder,
    /// Set brightness to the night default and color to a warm white.
    Nightlamp,
    /// Set brightness to the day default and color to a pleasant orange.
    Daylamp,
    /// Set the power state to the given value.
    PowerState { power: bool },
    /// Set the brightness to the given value, 1 to 100.
    BrightnessState { brightness: u8 },
    /// Set the color to the given value.
    ColorState { r: u8, g: u8, b: u8 },
}

/// Mathematical model of a recurring rule.
#[verifier::ext_equal]
pub ghost struct TimerModel {
    pub enable: bool,
    pub timeday: TimeDayModel,
    pub action: TimerAction,
}

/// A user-facing recurring rule: an enabled flag, an anchor time, and the
/// action to perform.
#[derive(Debug)]
pub struct Timer {
    enable: bool,
    timeday: TimeDay,
    action: TimerAction,
}

impl View for Timer {
    type V = TimerModel;

    closed spec fn view(&self) -> TimerModel {
        TimerModel { enable: self.enable, timeday: self.timeday@, action: self.action }
    }
}

impl Timer {
    /// Builds a rule around a well-formed anchor time.
    pub fn new(enable: bool, timeday: TimeDay, action: TimerAction) -> (r: Timer)
        requires
            timeday@.wf(),
        ensures
            r@ == (TimerModel { enable, timeday: timeday@, action }),
    {
        Timer { enable, timeday, action }
    }

    /// The anchor time.
    pub fn get_timeday(&self) -> (r: &TimeDay)
        ensures
            r@ == self@.timeday,
    {
        &self.timeday
    }

    /// The action.
    pub fn get_action(&self) -> (r: &TimerAction)
        ensures
            *r == self@.action,
    {
        &self.action
    }

    /// Whether the rule is enabled.
    pub fn get_enable(&self) -> (r: bool)
        ensures
            r == self@.enable,
    {
        self.enable
    }
}

/// Mathematical model of an expanded one-shot trigger.
#[verifier::ext_equal]
pub ghost struct SimpleTimerModel {
    pub timeday: TimeDayModel,
    pub description: Seq<char>,
    pub function: Callback,
}

/// An expanded one-shot trigger: a trigger time, a short description for
/// logging, and the callback to enqueue when the trigger time comes. Derived
/// from the rule list and regenerated whenever that list changes.
#[derive(Debug)]
pub struct SimpleTimer {
    timeday: TimeDay,
    description: &'static str,
    /// takes the pending state queue as argument
    function: Callback,
}

impl View for SimpleTimer {
    type V = SimpleTimerModel;

    closed spec fn view(&self) -> SimpleTimerModel {
        SimpleTimerModel {
            timeday: self.timeday@,
            description: self.description@,
            function: self.function,
        }
    }
}

impl SimpleTimer {
    /// The trigger time.
    pub fn get_timeday(&self) -> (r: &TimeDay)
        ensures
            r@ == self@.timeday,
    {
        &self.timeday
    }

    /// The description.
    pub fn get_description(&self) -> (r: &'static str)
        ensures
            r@ == self@.description,
    {
        self.description
    }

    /// The callback.
    pub fn get_function(&self) -> (r: Callback)
        ensures
            r == self@.function,
    {
        self.function
    }
}

/// The models of a rule list.
pub open spec fn timer_models(timers: Seq<Timer>) -> Seq<TimerModel> {
    timers.map_values(|t: Timer| t@)
}

/// The models of a trigger list.
pub open spec fn simple_timer_models(timers: Seq<SimpleTimer>) -> Seq<SimpleTimerModel> {
    timers.map_values(|t: SimpleTimer| t@)
}

/// The one-shot triggers a single rule expands to. A disabled rule expands
/// to nothing. A sunrise rule expands to up to four triggers: nightlamp on
/// and off (only when a nightlamp phase was asked for), the sunrise ramp
/// start, and the later turn-off. Every other action expands to one trigger
/// at the anchor itself.
#[verifier::opaque]
pub open spec fn spec_expand(t: TimerModel) -> Seq<SimpleTimerModel> {
    if !t.enable {
        Seq::empty()
    } else {
        match t.action {
            TimerAction::Sunrise { duration_min, stay_on_for_min, sleep_min, nightlamp_min } => {
                let tail = seq![
                    SimpleTimerModel {
                        timeday: spec_shift(t.timeday, -(duration_min as int)),
                        description: "sunrise"@,
                        function: Callback::RunSunrise { duration_min },
                    },
                    SimpleTimerModel {
                        timeday: spec_shift(t.timeday, stay_on_for_min as int),
                        description: "turn off"@,
                        function: Callback::TurnOff,
                    },
                ];
                if nightlamp_min > 0 {
                    seq![
                        SimpleTimerModel {
                            timeday: spec_shift(
                                t.timeday,
                                -(sleep_min as int) - (nightlamp_min as int),
                            ),
                            description: "nightlamp on"@,
                            function: Callback::Nightlamp,
                        },
                        SimpleTimerModel {
                            timeday: spec_shift(t.timeday, -(sleep_min as int)),
                            description: "nightlamp off"@,
                            function: Callback::Append { state: SetState::Power(false) },
                        },
                    ] + tail
                } else {
                    tail
                }
            },
            TimerAction::Reminder => seq![
                SimpleTimerModel {
                    timeday: t.timeday,
                    description: "reminder"@,
                    function: Callback::Reminder,
                },
            ],
            TimerAction::Nightlamp => seq![
                SimpleTimerModel {
                    timeday: t.timeday,
                    description: "nightlamp on"@,
                    function: Callback::Nightlamp,
                },
            ],
            TimerAction::Daylamp => seq![
                SimpleTimerModel {
                    timeday: t.timeday,
                    description: "daylamp on"@,
                    function: Callback::Daylamp,
                },
            ],
            TimerAction::PowerState { power } => seq![
                SimpleTimerModel {
                    timeday: t.timeday,
                    description: "set power"@,
                    function: Callback::Append { state: SetState::Power(power) },
                },
            ],
            TimerAction::BrightnessState { brightness } => seq![
                SimpleTimerModel {
                    timeday: t.timeday,
                    description: "set brightness"@,
                    function: Callback::Append { state: SetState::Brightness(brightness) },
                },
            ],
            TimerAction::ColorState { r, g, b } => seq![
                SimpleTimerModel {
                    timeday: t.timeday,
                    description: "set color"@,
                    function: Callback::Append { state: SetState::Color(r, g, b) },
                },
            ],
        }
    }
}

/// The full expansion of a rule list, in rule order.
pub open spec fn spec_process(timers: Seq<TimerModel>) -> Seq<SimpleTimerModel>
    decreases timers.len(),
{
    if timers.len() == 0 {
        Seq::empty()
    } else {
        spec_expand(timers[0]) + spec_process(timers.drop_first())
    }
}

#[verifier::rlimit(50)]
proof fn lemma_spec_process_push(timers: Seq<TimerModel>, t: TimerModel)
    ensures
        spec_process(timers.push(t)) == spec_process(timers) + spec_expand(t),
    decreases timers.len(),
{
    if timers.len() == 0 {
        assert(timers.push(t)[0] == t);
        assert(timers.push(t).drop_first() =~= Seq::<TimerModel>::empty());
        assert(spec_process(timers.push(t).drop_first()) == Seq::<SimpleTimerModel>::empty());
        assert(spec_process(timers.push(t)) == spec_expand(t) + Seq::<SimpleTimerModel>::empty());
        assert(spec_process(timers) == Seq::<SimpleTimerModel>::empty());
        assert(spec_expand(t) + Seq::<SimpleTimerModel>::empty() =~= Seq::<
            SimpleTimerModel,
        >::empty() + spec_expand(t));
    } else {
        assert(timers.push(t).drop_first() =~= timers.drop_first().push(t));
        lemma_spec_process_push(timers.drop_first(), t);
        assert(timers.push(t)[0] == timers[0]);
        let head = spec_expand(timers[0]);
        let rest = spec_process(timers.drop_first());
        let tail = spec_expand(t);
        assert(spec_process(timers.push(t)) == head + spec_process(timers.push(t).drop_first()));
        assert(spec_process(timers.push(t).drop_first()) == rest + tail);
        assert(spec_process(timers) == head + rest);
        assert(head + (rest + tail) =~= (head + rest) + tail);
    }
}

/// The anchor shifted `minutes` minutes into the past.
fn shift_back_minutes(timeday: &TimeDay, minutes: u32) -> (r: TimeDay)
    requires
        timeday@.wf(),
        minutes <= 200000,
    ensures
        r@ == spec_shift(timeday@, -(minutes as int)),
        r@.wf(),
{
    let hours: u32 = minutes / 60;
    let mins: u32 = minutes % 60;
    proof {
        lemma_fundamental_div_mod(minutes as int, 60);
        lemma_mod_bound(minutes as int, 60);
        lemma_div_is_ordered(minutes as int, 200000, 60);
    }
    timeday.shift_time(-(hours as i16), -(mins as i16))
}

/// The anchor shifted `minutes` minutes into the future.
fn shift_forward_minutes(timeday: &TimeDay, minutes: u32) -> (r: TimeDay)
    requires
        timeday@.wf(),
        minutes <= 200000,
    ensures
        r@ == spec_shift(timeday@, minutes as int),
        r@.wf(),
{
    let hours: u32 = minutes / 60;
    let mins: u32 = minutes % 60;
    proof {
        lemma_fundamental_div_mod(minutes as int, 60);
        lemma_mod_bound(minutes as int, 60);
        lemma_div_is_ordered(minutes as int, 200000, 60);
    }
    timeday.shift_time(hours as i16, mins as i16)
}

/// The one-shot triggers one rule expands to.
fn expand_timer(timer: &Timer) -> (r: Vec<SimpleTimer>)
    requires
        timer@.timeday.wf(),
    ensures
        simple_timer_models(r@) == spec_expand(timer@),
{
    proof {
        reveal(spec_expand);
    }
    let mut generated: Vec<SimpleTimer> = Vec::new();
    if !timer.enable {
        assert(simple_timer_models(generated@) =~= spec_expand(timer@));
        return generated;
    }
    match timer.action {
        TimerAction::Sunrise { duration_min, stay_on_for_min, sleep_min, nightlamp_min } => {
            if nightlamp_min > 0 {
                generated.push(
                    SimpleTimer {
                        timeday: shift_back_minutes(
                            &timer.timeday,
                            (sleep_min as u32) + (nightlamp_min as u32),
                        ),
                        description: "nightlamp on",
                        function: Callback::Nightlamp,
                    },
                );
                generated.push(
                    SimpleTimer {
                        timeday: shift_back_minutes(&timer.timeday, sleep_min as u32),
                        description: "nightlamp off",
                        function: Callback::Append { state: SetState::Power(false) },
                    },
                );
            }
            generated.push(
                SimpleTimer {
                    timeday: shift_back_minutes(&timer.timeday, duration_min as u32),
                    description: "sunrise",
                    function: Callback::RunSunrise { duration_min },
                },
            );
            generated.push(
                SimpleTimer {
                    timeday: shift_forward_minutes(&timer.timeday, stay_on_for_min as u32),
                    description: "turn off",
                    function: Callback::TurnOff,
                },
            );
        },
        TimerAction::Reminder => {
            generated.push(
                SimpleTimer {
                    timeday: timer.timeday.duplicate(),
                    description: "reminder",
                    function: Callback::Reminder,
                },
            );
        },
        TimerAction::Nightlamp => {
            generated.push(
                SimpleTimer {
                    timeday: timer.timeday.duplicate(),
                    description: "nightlamp on",
                    function: Callback::Nightlamp,
                },
            );
        },
        TimerAction::Daylamp => {
            generated.push(
                SimpleTimer {
                    timeday: timer.timeday.duplicate(),
                    description: "daylamp on",
                    function: Callback::Daylamp,
                },
            );
        },
        TimerAction::PowerState { power } => {
            generated.push(
                SimpleTimer {
                    timeday: timer.timeday.duplicate(),
                    description: "set power",
                    function: Callback::Append { state: SetState::Power(power) },
                },
            );
        },
        TimerAction::BrightnessState { brightness } => {
            generated.push(
                SimpleTimer {
                    timeday: timer.timeday.duplicate(),
                    description: "set brightness",
                    function: Callback::Append { state: SetState::Brightness(brightness) },
                },
            );
        },
        TimerAction::ColorState { r, g, b } => {
            generated.push(
                SimpleTimer {
                    timeday: timer.timeday.duplicate(),
                    description: "set color",
                    function: Callback::Append { state: SetState::Color(r, g, b) },
                },
            );
        },
    }
    assert(simple_timer_models(generated@) =~= spec_expand(timer@));
    generated
}

/// Expands every rule into its one-shot triggers and stores the result,
/// replacing the previous trigger set wholesale.
pub fn process_timers(timers: &Vec<Timer>, simple_timers: &mut Vec<SimpleTimer>)
    requires
        forall|i: int| 0 <= i < timers@.len() ==> (#[trigger] timers@[i])@.timeday.wf(),
    ensures
        simple_timer_models(final(simple_timers)@) == spec_process(timer_models(timers@)),
{
    let mut generated_timers: Vec<SimpleTimer> = Vec::new();
    let mut i: usize = 0;
    while i < timers.len()
        invariant
            i <= timers@.len(),
            forall|k: int| 0 <= k < timers@.len() ==> (#[trigger] timers@[k])@.timeday.wf(),
            simple_timer_models(generated_timers@) == spec_process(
                timer_models(timers@.take(i as int)),
            ),
        decreases timers@.len() - i,
    {
        let mut expansion = expand_timer(&timers[i]);
        let ghost produced: Seq<SimpleTimer> = generated_timers@;
        let ghost added: Seq<SimpleTimer> = expansion@;
        generated_timers.append(&mut expansion);
        proof {
            assert(timer_models(timers@.take(i as int + 1)) =~= timer_models(
                timers@.take(i as int),
            ).push(timers@[i as int]@));
            lemma_spec_process_push(timer_models(timers@.take(i as int)), timers@[i as int]@);
            assert(simple_timer_models(produced + added) =~= simple_timer_models(produced)
                + simple_timer_models(added));
        }
        i = i + 1;
    }
    proof {
        assert(timers@.take(timers@.len() as int) =~= timers@);
    }
    *simple_timers = generated_timers;
}

/// Whether a trigger fires at the given current time: its day set holds
/// today's day and its hour and minute equal the current ones.
pub open spec fn spec_matches(st: SimpleTimerModel, now: TimeDayModel) -> bool {
    &&& st.timeday.days.contains(now.days[0])
    &&& st.timeday.hour == now.hour
    &&& st.timeday.minute == now.minute
}

/// The callbacks of the triggers that fire at the given time, in trigger
/// order.
pub open spec fn spec_matched_callbacks(
    timers: Seq<SimpleTimerModel>,
    now: TimeDayModel,
) -> Seq<Callback>
    decreases timers.len(),
{
    if timers.len() == 0 {
        Seq::empty()
    } else {
        (if spec_matches(timers[0], now) {
            seq![timers[0].function]
        } else {
            Seq::empty()
        }) + spec_matched_callbacks(timers.drop_first(), now)
    }
}

proof fn lemma_spec_matched_callbacks_push(
    timers: Seq<SimpleTimerModel>,
    t: SimpleTimerModel,
    now: TimeDayModel,
)
    ensures
        spec_matched_callbacks(timers.push(t), now) == spec_matched_callbacks(timers, now) + (
        if spec_matches(t, now) {
            seq![t.function]
        } else {
            Seq::<Callback>::empty()
        }),
    decreases timers.len(),
{
    let tail = if spec_matches(t, now) {
        seq![t.function]
    } else {
        Seq::<Callback>::empty()
    };
    if timers.len() == 0 {
        assert(timers.push(t)[0] == t);
        assert(timers.push(t).drop_first() =~= Seq::<SimpleTimerModel>::empty());
        assert(spec_matched_callbacks(timers.push(t).drop_first(), now) == Seq::<
            Callback,
        >::empty());
        assert(spec_matched_callbacks(timers.push(t), now) == tail + Seq::<Callback>::empty());
        assert(spec_matched_callbacks(timers, now) == Seq::<Callback>::empty());
        assert(tail + Seq::<Callback>::empty() =~= Seq::<Callback>::empty() + tail);
    } else {
        assert(timers.push(t).drop_first() =~= timers.drop_first().push(t));
        lemma_spec_matched_callbacks_push(timers.drop_first(), t, now);
        assert(timers.push(t)[0] == timers[0]);
        let head = if spec_matches(timers[0], now) {
            seq![timers[0].function]
        } else {
            Seq::<Callback>::empty()
        };
        let rest = spec_matched_callbacks(timers.drop_first(), now);
        assert(spec_matched_callbacks(timers.push(t), now) == head + spec_matched_callbacks(
            timers.push(t).drop_first(),
            now,
        ));
        assert(spec_matched_callbacks(timers.push(t).drop_first(), now) == rest + tail);
        assert(spec_matched_callbacks(timers, now) == head + rest);
        assert(head + (rest + tail) =~= (head + rest) + tail);
    }
}

/// The callback queue after one scheduler check at the given time: unchanged
/// when that minute was already checked, else extended with the callbacks of
/// every trigger that fires at that time, in trigger order.
pub open spec fn spec_check_queue(
    timers: Seq<SimpleTimerModel>,
    queue: Seq<Callback>,
    last_checked: TimeDayModel,
    now: TimeDayModel,
) -> Seq<Callback> {
    if now == last_checked {
        queue
    } else {
        queue + spec_matched_callbacks(timers, now)
    }
}

/// The last-checked snapshot after one scheduler check at the given time.
pub open spec fn spec_check_last(last_checked: TimeDayModel, now: TimeDayModel) -> TimeDayModel {
    if now == last_checked {
        last_checked
    } else {
        now
    }
}

/// One scheduler check. When the current minute equals the last checked one
/// this is a no-op, so at most one check per minute takes effect. Otherwise
/// every trigger whose day set holds today's day and whose hour and minute
/// equal the current ones has its callback enqueued, in trigger order, and
/// the last-checked snapshot becomes the current time.
pub fn check_timers(
    simple_timers: &Vec<SimpleTimer>,
    function_queue: &mut VecDeque<Callback>,
    last_checked: &mut TimeDay,
    now: &TimeDay,
)
    requires
        now@.wf(),
        now@.days.len() == 1,
    ensures
        final(function_queue)@ == spec_check_queue(
            simple_timer_models(simple_timers@),
            old(function_queue)@,
            old(last_checked)@,
            now@,
        ),
        final(last_checked)@ == spec_check_last(old(last_checked)@, now@),
{
    if *now == *last_checked {
        return ;
    }
    let today: u8 = now.get_days()[0];
    let ghost queued: Seq<Callback> = function_queue@;
    let mut i: usize = 0;
    while i < simple_timers.len()
        invariant
            i <= simple_timers@.len(),
            now@.days.len() == 1,
            today == now@.days[0],
            function_queue@ == queued + spec_matched_callbacks(
                simple_timer_models(simple_timers@.take(i as int)),
                now@,
            ),
        decreases simple_timers@.len() - i,
    {
        let timer = &simple_timers[i];
        if contains_day(timer.get_timeday().get_days(), today) && *timer.get_timeday().get_hour()
            == *now.get_hour() && *timer.get_timeday().get_minute() == *now.get_minute() {
            fn_queue::enqueue(function_queue, timer.get_function());
        }
        proof {
            assert(simple_timer_models(simple_timers@.take(i as int + 1)) =~= simple_timer_models(
                simple_timers@.take(i as int),
            ).push(simple_timers@[i as int]@));
            lemma_spec_matched_callbacks_push(
                simple_timer_models(simple_timers@.take(i as int)),
                simple_timers@[i as int]@,
                now@,
            );
            assert(function_queue@ =~= queued + spec_matched_callbacks(
                simple_timer_models(simple_timers@.take(i as int + 1)),
                now@,
            ));
        }
        i = i + 1;
    }
    proof {
        assert(simple_timers@.take(simple_timers@.len() as int) =~= simple_timers@);
    }
    *last_checked = now.duplicate();
}

/// Law: checked twice within one minute, the scheduler enqueues only once.
/// After a check at some time, a second check at the same time leaves both
/// the callback queue and the last-checked snapshot exactly as the first
/// check left them.
pub proof fn lemma_second_check_same_minute_is_noop(
    timers: Seq<SimpleTimerModel>,
    queue: Seq<Callback>,
    last_checked: TimeDayModel,
    now: TimeDayModel,
)
    ensures
        spec_check_queue(
            timers,
            spec_check_queue(timers, queue, last_checked, now),
            spec_check_last(last_checked, now),
            now,
        ) == spec_check_queue(timers, queue, last_checked, now),
        spec_check_last(spec_check_last(last_checked, now), now) == spec_check_last(
            last_checked,
            now,
        ),
{
}

} // verus!
