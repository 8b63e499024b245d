use vstd::prelude::*;
use vstd::arithmetic::div_mod::*;
use std::collections::VecDeque;
use crate::constants::{
    API_REQUEST_INTERVAL_MS, AVG_SET_STATE_DURATION_MS, BRIGHTNESS_DAY, BRIGHTNESS_NIGHT,
    BRIGHTNESS_REMINDER, DAYLAMP_B, DAYLAMP_G, DAYLAMP_R, NIGHTLAMP_B, NIGHTLAMP_G, NIGHTLAMP_R,
    REMINDER_B, REMINDER_G, REMINDER_R, SUNRISE_BRIGHTNESS_START, SUNRISE_BRIGHTNESS_STOP,
    SUNRISE_SATURATION_START_PM, SUNRISE_SATURATION_STOP_PM,
};
use crate::govee::SetState;

verus! {

/// `p / q` rounded to the nearest integer, halves away from zero, for
/// non-negative `p` and positive `q`.
pub open spec fn spec_round_div(p: int, q: int) -> int
    recommends
        p >= 0,
        q > 0,
{
    (2 * p + q) / (2 * q)
}

/// How many brightness/color pairs a sunrise of the given length produces:
/// one state pair per API call slot, where each slot takes the request
/// interval plus the average call duration, halved because brightness and
/// color are emitted as a pair each step.
pub open spec fn spec_state_amount(duration_min: u16) -> int {
    (duration_min as int) * 60000 / ((API_REQUEST_INTERVAL_MS + AVG_SET_STATE_DURATION_MS) as int)
        / 2
}

/// Brightness of sunrise step `i` of `n`: linear from the start to the stop
/// brightness, rounded to the nearest percent.
pub open spec fn spec_sunrise_brightness(i: int, n: int) -> int {
    SUNRISE_BRIGHTNESS_START + spec_round_div(
        (SUNRISE_BRIGHTNESS_STOP - SUNRISE_BRIGHTNESS_START) * i,
        n - 1,
    )
}

/// Saturation of sunrise step `i` of `n` in thousandths: linear from the
/// start down to the stop saturation, rounded to the nearest thousandth.
pub open spec fn spec_sunrise_saturation_pm(i: int, n: int) -> int {
    SUNRISE_SATURATION_START_PM - spec_round_div(
        (SUNRISE_SATURATION_START_PM - SUNRISE_SATURATION_STOP_PM) * i,
        n - 1,
    )
}

/// Color of sunrise step `i` of `n`: the HSV color at the fixed sunrise hue
/// of 25 degrees and full value, with the step's saturation `s` (here in
/// thousandths), converted to RGB. At that hue the red channel is full, the
/// green channel is `(1 - 7*s/12) * 255` and the blue channel is
/// `(1 - s) * 255`, each truncated to an integer.
pub open spec fn spec_sunrise_color(i: int, n: int) -> SetState {
    let sm = spec_sunrise_saturation_pm(i, n);
    SetState::Color(
        255,
        ((12000 - 7 * sm) * 255 / 12000) as u8,
        ((1000 - sm) * 255 / 1000) as u8,
    )
}

/// The pair of states sunrise step `i` of `n` contributes.
pub open spec fn spec_sunrise_step(i: int, n: int) -> Seq<SetState> {
    seq![
        SetState::Brightness(spec_sunrise_brightness(i, n) as u8),
        spec_sunrise_color(i, n),
    ]
}

/// The first `k` sunrise steps of `n`, in order.
pub open spec fn spec_sunrise_states_upto(n: int, k: int) -> Seq<SetState>
    decreases k,
{
    if k <= 0 {
        Seq::empty()
    } else {
        spec_sunrise_states_upto(n, k - 1) + spec_sunrise_step(k - 1, n)
    }
}

/// Every state of a sunrise of the given length, in order. Fewer than two
/// steps cannot form a ramp, so nothing is produced then.
pub open spec fn spec_sunrise_states(duration_min: u16) -> Seq<SetState> {
    let n = spec_state_amount(duration_min);
    if n < 2 {
        Seq::empty()
    } else {
        spec_sunrise_states_upto(n, n)
    }
}

/// The states of the nightlamp scene: default night brightness, then a warm
/// white color.
pub open spec fn spec_nightlamp_states() -> Seq<SetState> {
    seq![
        SetState::Brightness(BRIGHTNESS_NIGHT),
        SetState::Color(NIGHTLAMP_R, NIGHTLAMP_G, NIGHTLAMP_B),
    ]
}

/// The states of the daylamp scene: default day brightness, then a pleasant
/// orange color.
pub open spec fn spec_daylamp_states() -> Seq<SetState> {
    seq![
        SetState::Brightness(BRIGHTNESS_DAY),
        SetState::Color(DAYLAMP_R, DAYLAMP_G, DAYLAMP_B),
    ]
}

/// The states of the reminder scene: a bright orange at high brightness,
/// power on, and power off again once the queued states drain.
pub open spec fn spec_reminder_states() -> Seq<SetState> {
    seq![
        SetState::Color(REMINDER_R, REMINDER_G, REMINDER_B),
        SetState::Brightness(BRIGHTNESS_REMINDER),
        SetState::Power(true),
        SetState::Power(false),
    ]
}

/// The states that return the lamp to default brightness and turn it off.
pub open spec fn spec_turn_off_states() -> Seq<SetState> {
    seq![SetState::Brightness(BRIGHTNESS_DAY), SetState::Power(false)]
}

/// Appends the nightlamp scene to the queue.
pub fn nightlamp(govee_queue: &mut VecDeque<SetState>)
    ensures
        final(govee_queue)@ == old(govee_queue)@ + spec_nightlamp_states(),
{
    govee_queue.push_back(SetState::Brightness(BRIGHTNESS_NIGHT));
    govee_queue.push_back(SetState::Color(NIGHTLAMP_R, NIGHTLAMP_G, NIGHTLAMP_B));
    assert(govee_queue@ =~= old(govee_queue)@ + spec_nightlamp_states());
}

/// Appends the daylamp scene to the queue.
pub fn daylamp(govee_queue: &mut VecDeque<SetState>)
    ensures
        final(govee_queue)@ == old(govee_queue)@ + spec_daylamp_states(),
{
    govee_queue.push_back(SetState::Brightness(BRIGHTNESS_DAY));
    govee_queue.push_back(SetState::Color(DAYLAMP_R, DAYLAMP_G, DAYLAMP_B));
    assert(govee_queue@ =~= old(govee_queue)@ + spec_daylamp_states());
}

/// Appends the reminder scene to the queue.
pub fn reminder(govee_queue: &mut VecDeque<SetState>)
    ensures
        final(govee_queue)@ == old(govee_queue)@ + spec_reminder_states(),
{
    govee_queue.push_back(SetState::Color(REMINDER_R, REMINDER_G, REMINDER_B));
    govee_queue.push_back(SetState::Brightness(BRIGHTNESS_REMINDER));
    govee_queue.push_back(SetState::Power(true));
    govee_queue.push_back(SetState::Power(false));
    assert(govee_queue@ =~= old(govee_queue)@ + spec_reminder_states());
}

/// Appends the states that restore default brightness and turn the lamp off.
pub fn default_brightness_then_off(govee_queue: &mut VecDeque<SetState>)
    ensures
        final(govee_queue)@ == old(govee_queue)@ + spec_turn_off_states(),
{
    govee_queue.push_back(SetState::Brightness(BRIGHTNESS_DAY));
    govee_queue.push_back(SetState::Power(false));
    assert(govee_queue@ =~= old(govee_queue)@ + spec_turn_off_states());
}

/// Brightness of one sunrise step, as sent to the lamp.
fn sunrise_brightness_at(i: u64, n: u64) -> (r: u8)
    requires
        2 <= n <= 302469,
        i < n,
    ensures
        r as int == spec_sunrise_brightness(i as int, n as int),
{
    let d: u64 = (SUNRISE_BRIGHTNESS_STOP - SUNRISE_BRIGHTNESS_START) as u64;
    assert(d == 99);
    let p: u64 = d * i;
    let q: u64 = n - 1;
    let rd: u64 = (2 * p + q) / (2 * q);
    proof {
        lemma_multiply_divide_lt(2 * p + q, 2 * q, 100);
        lemma_div_pos_is_pos(2 * p + q, 2 * q);
    }
    SUNRISE_BRIGHTNESS_START + (rd as u8)
}

/// Saturation of one sunrise step, in thousandths.
fn sunrise_saturation_pm_at(i: u64, n: u64) -> (r: u16)
    requires
        2 <= n <= 302469,
        i < n,
    ensures
        r as int == spec_sunrise_saturation_pm(i as int, n as int),
        550 <= r <= 800,
{
    let d: u64 = (SUNRISE_SATURATION_START_PM - SUNRISE_SATURATION_STOP_PM) as u64;
    assert(d == 250);
    let p: u64 = d * i;
    let q: u64 = n - 1;
    let rd: u64 = (2 * p + q) / (2 * q);
    proof {
        lemma_multiply_divide_lt(2 * p + q, 2 * q, 251);
        lemma_div_pos_is_pos(2 * p + q, 2 * q);
    }
    SUNRISE_SATURATION_START_PM - (rd as u16)
}

/// Color of one sunrise step.
fn sunrise_color_at(i: u64, n: u64) -> (r: SetState)
    requires
        2 <= n <= 302469,
        i < n,
    ensures
        r == spec_sunrise_color(i as int, n as int),
{
    let sm: u32 = sunrise_saturation_pm_at(i, n) as u32;
    let g: u32 = ((12000 - 7 * sm) * 255) / 12000;
    let b: u32 = ((1000 - sm) * 255) / 1000;
    proof {
        lemma_multiply_divide_lt((12000 - 7 * sm) * 255, 12000, 256);
        lemma_multiply_divide_lt((1000 - sm) * 255, 1000, 256);
        lemma_div_pos_is_pos((12000 - 7 * sm) * 255, 12000);
        lemma_div_pos_is_pos((1000 - sm) * 255, 1000);
    }
    SetState::Color(255, g as u8, b as u8)
}

/// Appends the states of a sunrise of the given length to the queue: one
/// brightness and one color per step, brightness rising from the start to
/// the stop value while the color's saturation falls, at a fixed hue.
/// A length yielding fewer than two steps appends nothing.
pub fn sunrise(govee_queue: &mut VecDeque<SetState>, duration_min: u16)
    ensures
        final(govee_queue)@ == old(govee_queue)@ + spec_sunrise_states(duration_min),
{
    let n: u64 = ((duration_min as u64) * 60000) / (API_REQUEST_INTERVAL_MS
        + AVG_SET_STATE_DURATION_MS) / 2;
    assert(n as int == spec_state_amount(duration_min));
    if n < 2 {
        assert(govee_queue@ =~= old(govee_queue)@ + spec_sunrise_states(duration_min));
        return ;
    }
    assert(n <= 302469) by {
        lemma_div_is_ordered((duration_min as int) * 60000, 65535int * 60000, 6500);
        lemma_div_is_ordered((duration_min as int) * 60000 / 6500, 65535int * 60000 / 6500, 2);
    }
    let ghost initial: Seq<SetState> = govee_queue@;
    let mut i: u64 = 0;
    while i < n
        invariant
            2 <= n <= 302469,
            n as int == spec_state_amount(duration_min),
            i <= n,
            govee_queue@ == initial + spec_sunrise_states_upto(n as int, i as int),
        decreases n - i,
    {
        let b = sunrise_brightness_at(i, n);
        govee_queue.push_back(SetState::Brightness(b));
        let c = sunrise_color_at(i, n);
        govee_queue.push_back(c);
        proof {
            assert(govee_queue@ =~= initial + spec_sunrise_states_upto(n as int, i as int + 1));
        }
        i = i + 1;
    }
    assert(govee_queue@ =~= old(govee_queue)@ + spec_sunrise_states(duration_min));
}

/// Law: the sunrise ramp is monotone. Whenever a sunrise has at least two
/// steps, the brightness of a later step is never below that of an earlier
/// step, and the saturation of a later step is never above that of an
/// earlier step.
pub proof fn lemma_sunrise_monotonic(n: int, i: int, j: int)
    requires
        2 <= n,
        0 <= i <= j < n,
    ensures
        spec_sunrise_brightness(i, n) <= spec_sunrise_brightness(j, n),
        spec_sunrise_saturation_pm(i, n) >= spec_sunrise_saturation_pm(j, n),
{
    lemma_div_is_ordered(2 * (99 * i) + (n - 1), 2 * (99 * j) + (n - 1), 2 * (n - 1));
    lemma_div_is_ordered(2 * (250 * i) + (n - 1), 2 * (250 * j) + (n - 1), 2 * (n - 1));
}

} // verus!
