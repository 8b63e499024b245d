use vstd::prelude::*;
use std::collections::VecDeque;
use crate::fn_queue::{call_all, spec_run_all, Callback};
use crate::govee::SetState;
use crate::timeday::TimeDay;
use crate::timer::{
    check_timers, simple_timer_models, spec_check_last, spec_check_queue, SimpleTimer,
};

verus! {

/// The first half of one dispatch cycle: runs the scheduler check for the
/// given current time, then drains the deferred-callback queue completely
/// into the pending state queue. What the callbacks append (or clear) is
/// exactly what the matched triggers and previously deferred requests asked
/// for, in order.
pub fn prepare_cycle(
    simple_timers: &Vec<SimpleTimer>,
    function_queue: &mut VecDeque<Callback>,
    last_checked: &mut TimeDay,
    now: &TimeDay,
    govee_queue: &mut VecDeque<SetState>,
)
    requires
        now@.wf(),
        now@.days.len() == 1,
    ensures
        final(function_queue)@.len() == 0,
        final(last_checked)@ == spec_check_last(old(last_checked)@, now@),
        final(govee_queue)@ == spec_run_all(
            spec_check_queue(
                simple_timer_models(simple_timers@),
                old(function_queue)@,
                old(last_checked)@,
                now@,
            ),
            old(govee_queue)@,
        ),
{
    check_timers(simple_timers, function_queue, last_checked, now);
    call_all(function_queue, govee_queue);
}

/// The pending state queue after one dispatch cycle whose attempt to apply
/// the front state ended with the given success: on success the front is
/// popped, on failure the queue is untouched so the same state is retried.
pub open spec fn spec_dispatch(q: Seq<SetState>, success: bool) -> Seq<SetState> {
    if success && q.len() > 0 {
        q.drop_first()
    } else {
        q
    }
}

/// The front pending state, if any: the next one to apply to the fixture.
pub fn front_state(govee_queue: &VecDeque<SetState>) -> (r: Option<SetState>)
    ensures
        govee_queue@.len() == 0 ==> r is None,
        govee_queue@.len() > 0 ==> r == Some(govee_queue@[0]),
{
    if govee_queue.len() > 0 {
        Some(govee_queue[0])
    } else {
        None
    }
}

/// Finishes one dispatch cycle given whether applying the front state
/// succeeded. The front state is popped only on success; on failure it stays
/// at the front, to be retried next cycle in unchanged order.
pub fn dispatch_step(govee_queue: &mut VecDeque<SetState>, success: bool)
    ensures
        final(govee_queue)@ == spec_dispatch(old(govee_queue)@, success),
{
    if success && govee_queue.len() > 0 {
        govee_queue.pop_front();
        assert(govee_queue@ =~= spec_dispatch(old(govee_queue)@, success));
    }
}

/// The pending state queue after `n` dispatch cycles whose apply attempts
/// all failed.
pub open spec fn spec_dispatch_failures(q: Seq<SetState>, n: nat) -> Seq<SetState>
    decreases n,
{
    if n == 0 {
        q
    } else {
        spec_dispatch_failures(spec_dispatch(q, false), (n - 1) as nat)
    }
}

/// Law: a state is never dropped without a successful apply. Across any
/// number of dispatch cycles whose apply attempts failed, the pending state
/// queue is unchanged — the same state stays at the front and nothing is
/// skipped or reordered.
pub proof fn lemma_failed_cycles_preserve_queue(q: Seq<SetState>, n: nat)
    ensures
        spec_dispatch_failures(q, n) == q,
    decreases n,
{
    if n > 0 {
        lemma_failed_cycles_preserve_queue(q, (n - 1) as nat);
    }
}

} // verus!
