use vstd::prelude::*;
use std::collections::VecDeque;
use crate::govee::SetState;
use crate::state;

verus! {

/// A deferred action. Producers (the scheduler and request handlers) enqueue
/// these; the dispatch loop drains and runs them with exclusive access to the
/// pending state queue. A tagged variant stands for each callback the system
/// uses, so the action set is closed and each action's effect is specified.
#[derive(Clone, Copy, Debug, PartialEq, Eq, Structural)]
pub enum Callback {
    /// Activate the nightlamp scene.
    Nightlamp,
    /// Activate the daylamp scene.
    Daylamp,
    /// Activate the reminder scene.
    Reminder,
    /// Restore default brightness, then turn the lamp off.
    TurnOff,
    /// Drop every pending state, then restore default brightness and turn
    /// the lamp off.
    ClearThenOff,
    /// Append one state change.
    Append { state: SetState },
    /// Append the states of a sunrise of the given length.
    RunSunrise { duration_min: u16 },
}

/// The pending state queue after one callback ran against `q`.
pub open spec fn spec_run_callback(callback: Callback, q: Seq<SetState>) -> Seq<SetState> {
    match callback {
        Callback::Nightlamp => q + state::spec_nightlamp_states(),
        Callback::Daylamp => q + state::spec_daylamp_states(),
        Callback::Reminder => q + state::spec_reminder_states(),
        Callback::TurnOff => q + state::spec_turn_off_states(),
        Callback::ClearThenOff => state::spec_turn_off_states(),
        Callback::Append { state } => q.push(state),
        Callback::RunSunrise { duration_min } => q + state::spec_sunrise_states(duration_min),
    }
}

/// The pending state queue after every callback ran, front first.
pub open spec fn spec_run_all(callbacks: Seq<Callback>, q: Seq<SetState>) -> Seq<SetState>
    decreases callbacks.len(),
{
    if callbacks.len() == 0 {
        q
    } else {
        spec_run_all(callbacks.drop_first(), spec_run_callback(callbacks[0], q))
    }
}

/// Runs one callback against the pending state queue.
pub fn run_callback(callback: &Callback, govee_queue: &mut VecDeque<SetState>)
    ensures
        final(govee_queue)@ == spec_run_callback(*callback, old(govee_queue)@),
{
    match callback {
        Callback::Nightlamp => state::nightlamp(govee_queue),
        Callback::Daylamp => state::daylamp(govee_queue),
        Callback::Reminder => state::reminder(govee_queue),
        Callback::TurnOff => state::default_brightness_then_off(govee_queue),
        Callback::ClearThenOff => {
            govee_queue.clear();
            state::default_brightness_then_off(govee_queue);
            assert(govee_queue@ =~= state::spec_turn_off_states());
        },
        Callback::Append { state } => {
            govee_queue.push_back(*state);
        },
        Callback::RunSunrise { duration_min } => state::sunrise(govee_queue, *duration_min),
    }
}

/// Calls and removes each queued callback, starting from the front, handing
/// each one the pending state queue. Leaves the callback queue empty.
pub fn call_all(function_queue: &mut VecDeque<Callback>, govee_queue: &mut VecDeque<SetState>)
    ensures
        final(function_queue)@.len() == 0,
        final(govee_queue)@ == spec_run_all(old(function_queue)@, old(govee_queue)@),
{
    let ghost pending: Seq<Callback> = function_queue@;
    let ghost states: Seq<SetState> = govee_queue@;
    while function_queue.len() > 0
        invariant
            spec_run_all(pending, states) == spec_run_all(function_queue@, govee_queue@),
        decreases function_queue@.len(),
    {
        let ghost before: Seq<Callback> = function_queue@;
        let callback = function_queue.pop_front().unwrap();
        run_callback(&callback, govee_queue);
        proof {
            assert(before[0] == callback);
            assert(before.drop_first() =~= function_queue@);
        }
    }
}

/// Appends a callback to the queue.
pub fn enqueue(function_queue: &mut VecDeque<Callback>, function: Callback)
    ensures
        final(function_queue)@ == old(function_queue)@.push(function),
{
    function_queue.push_back(function);
}

} // verus!
