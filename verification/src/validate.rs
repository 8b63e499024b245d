use vstd::prelude::*;
use crate::timeday::{copy_days, days_equal, normalize_days, TimeDay, TimeDayModel};
use crate::timer::{
    process_timers, spec_process, timer_models, SimpleTimer, Timer, TimerAction, TimerModel,
    simple_timer_models,
};

verus! {

/// Why a submitted rule list was rejected. Each variant names the field
/// constraint that the first offending rule violates.
#[derive(Clone, Copy, Debug, PartialEq, Eq, Structural)]
pub enum TimerError {
    HourOutOfRange,
    MinuteOutOfRange,
    DaysEmpty,
    DaysTooMany,
    DayOutOfRange,
    SunriseDurationTooShort,
    SunriseSleepShorterThanDuration,
    SunriseSleepTooLong,
    SunriseDurationTooLong,
    SunriseNightlampTooLong,
    SunriseStayOnTooLong,
    BrightnessTooSmall,
    BrightnessTooLarge,
}

impl TimerError {
    /// The reason handed back to the submitter.
    pub open spec fn spec_message(&self) -> Seq<char> {
        match self {
            TimerError::HourOutOfRange => "timeday.hour must be <= 23"@,
            TimerError::MinuteOutOfRange => "timeday.minute must be <= 59"@,
            TimerError::DaysEmpty => "timeday.days must not be empty"@,
            TimerError::DaysTooMany => "timeday.days must have <= 7 elements"@,
            TimerError::DayOutOfRange => "every day in timeday.days has to be <= 6"@,
            TimerError::SunriseDurationTooShort => "action.params.duration_min has to be >= 1"@,
            TimerError::SunriseSleepShorterThanDuration => "action.params.sleep_min has to be >= action.params.duration_min if action.params.nightlamp_min is > 0"@,
            TimerError::SunriseSleepTooLong => "action.params.sleep_min has to be <= 32767"@,
            TimerError::SunriseDurationTooLong => "action.params.duration_min has to be <= 32767"@,
            TimerError::SunriseNightlampTooLong => "action.params.nightlamp_min has to be <= 32767"@,
            TimerError::SunriseStayOnTooLong => "action.params.stay_on_for_min has to be <= 32767"@,
            TimerError::BrightnessTooSmall => "action.params.brightness has to be >= 1"@,
            TimerError::BrightnessTooLarge => "action.params.brightness has to be <= 100"@,
        }
    }

    /// The reason handed back to the submitter.
    pub fn message(&self) -> (r: &'static str)
        ensures
            r@ == self.spec_message(),
    {
        match self {
            TimerError::HourOutOfRange => "timeday.hour must be <= 23",
            TimerError::MinuteOutOfRange => "timeday.minute must be <= 59",
            TimerError::DaysEmpty => "timeday.days must not be empty",
            TimerError::DaysTooMany => "timeday.days must have <= 7 elements",
            TimerError::DayOutOfRange => "every day in timeday.days has to be <= 6",
            TimerError::SunriseDurationTooShort => "action.params.duration_min has to be >= 1",
            TimerError::SunriseSleepShorterThanDuration => "action.params.sleep_min has to be >= action.params.duration_min if action.params.nightlamp_min is > 0",
            TimerError::SunriseSleepTooLong => "action.params.sleep_min has to be <= 32767",
            TimerError::SunriseDurationTooLong => "action.params.duration_min has to be <= 32767",
            TimerError::SunriseNightlampTooLong => "action.params.nightlamp_min has to be <= 32767",
            TimerError::SunriseStayOnTooLong => "action.params.stay_on_for_min has to be <= 32767",
            TimerError::BrightnessTooSmall => "action.params.brightness has to be >= 1",
            TimerError::BrightnessTooLarge => "action.params.brightness has to be <= 100",
        }
    }
}

/// Mathematical model of a submitted rule.
#[verifier::ext_equal]
pub ghost struct CandidateModel {
    pub enable: bool,
    pub hour: u8,
    pub minute: u8,
    pub days: Seq<u8>,
    pub action: TimerAction,
}

/// A rule as submitted from outside, fields unchecked. Validation turns a
/// list of these into stored rules, or rejects the whole list.
#[derive(Debug)]
pub struct TimerCandidate {
    pub enable: bool,
    pub hour: u8,
    pub minute: u8,
    pub days: Vec<u8>,
    pub action: TimerAction,
}

impl View for TimerCandidate {
    type V = CandidateModel;

    open spec fn view(&self) -> CandidateModel {
        CandidateModel {
            enable: self.enable,
            hour: self.hour,
            minute: self.minute,
            days: self.days@,
            action: self.action,
        }
    }
}

impl TimerCandidate {
    /// A copy of this submitted rule.
    pub fn duplicate(&self) -> (r: TimerCandidate)
        ensures
            r@ == self@,
    {
        let r = TimerCandidate {
            enable: self.enable,
            hour: self.hour,
            minute: self.minute,
            days: copy_days(&self.days),
            action: self.action,
        };
        assert(r@ =~= self@);
        r
    }
}

impl PartialEq for TimerCandidate {
    /// Exact field equality, used to drop duplicates on bulk replace.
    fn eq(&self, other: &TimerCandidate) -> (r: bool) {
        let r = self.enable == other.enable && self.hour == other.hour && self.minute
            == other.minute && days_equal(&self.days, &other.days) && self.action == other.action;
        proof {
            if r {
                assert(self@ =~= other@);
            }
        }
        r
    }
}

impl vstd::std_specs::cmp::PartialEqSpecImpl for TimerCandidate {
    open spec fn obeys_eq_spec() -> bool {
        true
    }

    open spec fn eq_spec(&self, other: &TimerCandidate) -> bool {
        self@ == other@
    }
}

/// The models of a submitted rule list.
pub open spec fn candidate_models(candidates: Seq<TimerCandidate>) -> Seq<CandidateModel> {
    candidates.map_values(|c: TimerCandidate| c@)
}

/// The first constraint a submitted rule's action violates, if any.
pub open spec fn spec_validate_action(action: TimerAction) -> Option<TimerError> {
    match action {
        TimerAction::Sunrise { duration_min, stay_on_for_min, sleep_min, nightlamp_min } => {
            if duration_min < 1 {
                Some(TimerError::SunriseDurationTooShort)
            } else if nightlamp_min > 0 && sleep_min < duration_min {
                Some(TimerError::SunriseSleepShorterThanDuration)
            } else if sleep_min > 32767 {
                Some(TimerError::SunriseSleepTooLong)
            } else if duration_min > 32767 {
                Some(TimerError::SunriseDurationTooLong)
            } else if nightlamp_min > 32767 {
                Some(TimerError::SunriseNightlampTooLong)
            } else if stay_on_for_min > 32767 {
                Some(TimerError::SunriseStayOnTooLong)
            } else {
                None
            }
        },
        TimerAction::BrightnessState { brightness } => {
            if brightness < 1 {
                Some(TimerError::BrightnessTooSmall)
            } else if brightness > 100 {
                Some(TimerError::BrightnessTooLarge)
            } else {
                None
            }
        },
        _ => None,
    }
}

/// The first constraint a submitted rule violates, if any: the anchor time's
/// fields are checked first, then the action's parameters.
pub open spec fn spec_validate_candidate(c: CandidateModel) -> Option<TimerError> {
    if c.hour > 23 {
        Some(TimerError::HourOutOfRange)
    } else if c.minute > 59 {
        Some(TimerError::MinuteOutOfRange)
    } else if c.days.len() == 0 {
        Some(TimerError::DaysEmpty)
    } else if c.days.len() > 7 {
        Some(TimerError::DaysTooMany)
    } else if exists|i: int| 0 <= i < c.days.len() && c.days[i] > 6 {
        Some(TimerError::DayOutOfRange)
    } else {
        spec_validate_action(c.action)
    }
}

/// The first error in a submitted rule list, in submission order.
pub open spec fn spec_first_error(candidates: Seq<CandidateModel>) -> Option<TimerError>
    decreases candidates.len(),
{
    if candidates.len() == 0 {
        None
    } else if spec_validate_candidate(candidates[0]) is Some {
        spec_validate_candidate(candidates[0])
    } else {
        spec_first_error(candidates.drop_first())
    }
}

/// A submitted rule list with duplicates removed: of equal rules only the
/// first stays, in submission order.
pub open spec fn spec_dedup(candidates: Seq<CandidateModel>) -> Seq<CandidateModel>
    decreases candidates.len(),
{
    if candidates.len() == 0 {
        Seq::empty()
    } else {
        let pre = spec_dedup(candidates.drop_last());
        if pre.contains(candidates.last()) {
            pre
        } else {
            pre.push(candidates.last())
        }
    }
}

/// The stored rule a valid submitted rule becomes.
pub open spec fn spec_build(c: CandidateModel) -> TimerModel {
    TimerModel {
        enable: c.enable,
        timeday: TimeDayModel {
            hour: c.hour as int,
            minute: c.minute as int,
            days: normalize_days(c.days),
        },
        action: c.action,
    }
}

/// The stored rules a valid submitted rule list becomes.
pub open spec fn spec_build_all(candidates: Seq<CandidateModel>) -> Seq<TimerModel> {
    candidates.map_values(|c: CandidateModel| spec_build(c))
}

/// Whether any submitted day value is out of range.
fn any_day_out_of_range(days: &Vec<u8>) -> (r: bool)
    ensures
        r == exists|i: int| 0 <= i < days@.len() && days@[i] > 6,
{
    let mut i: usize = 0;
    while i < days.len()
        invariant
            i <= days@.len(),
            forall|j: int| 0 <= j < i ==> days@[j] <= 6,
        decreases days@.len() - i,
    {
        if days[i] > 6 {
            assert(days@[i as int] > 6);
            return true;
        }
        i = i + 1;
    }
    false
}

/// The first constraint a submitted rule violates, if any.
pub fn validate_candidate(candidate: &TimerCandidate) -> (r: Option<TimerError>)
    ensures
        r == spec_validate_candidate(candidate@),
{
    if candidate.hour > 23 {
        return Some(TimerError::HourOutOfRange);
    }
    if candidate.minute > 59 {
        return Some(TimerError::MinuteOutOfRange);
    }
    if candidate.days.len() == 0 {
        return Some(TimerError::DaysEmpty);
    }
    if candidate.days.len() > 7 {
        return Some(TimerError::DaysTooMany);
    }
    if any_day_out_of_range(&candidate.days) {
        return Some(TimerError::DayOutOfRange);
    }
    match candidate.action {
        TimerAction::Sunrise { duration_min, stay_on_for_min, sleep_min, nightlamp_min } => {
            if duration_min < 1 {
                Some(TimerError::SunriseDurationTooShort)
            } else if nightlamp_min > 0 && sleep_min < duration_min {
                Some(TimerError::SunriseSleepShorterThanDuration)
            } else if sleep_min > 32767 {
                Some(TimerError::SunriseSleepTooLong)
            } else if duration_min > 32767 {
                Some(TimerError::SunriseDurationTooLong)
            } else if nightlamp_min > 32767 {
                Some(TimerError::SunriseNightlampTooLong)
            } else if stay_on_for_min > 32767 {
                Some(TimerError::SunriseStayOnTooLong)
            } else {
                None
            }
        },
        TimerAction::BrightnessState { brightness } => {
            if brightness < 1 {
                Some(TimerError::BrightnessTooSmall)
            } else if brightness > 100 {
                Some(TimerError::BrightnessTooLarge)
            } else {
                None
            }
        },
        _ => None,
    }
}

/// Whether the list holds a rule equal to `candidate`.
fn contains_candidate(list: &Vec<TimerCandidate>, candidate: &TimerCandidate) -> (r: bool)
    ensures
        r == candidate_models(list@).contains(candidate@),
{
    let mut i: usize = 0;
    while i < list.len()
        invariant
            i <= list@.len(),
            forall|j: int| 0 <= j < i ==> candidate_models(list@)[j] != candidate@,
        decreases list@.len() - i,
    {
        if list[i] == *candidate {
            assert(candidate_models(list@)[i as int] == candidate@);
            return true;
        }
        i = i + 1;
    }
    false
}

/// Removes duplicate rules from a submitted list, keeping first occurrences
/// in submission order.
fn dedup_candidates(candidates: &Vec<TimerCandidate>) -> (r: Vec<TimerCandidate>)
    ensures
        candidate_models(r@) == spec_dedup(candidate_models(candidates@)),
{
    let mut unique: Vec<TimerCandidate> = Vec::new();
    let mut i: usize = 0;
    while i < candidates.len()
        invariant
            i <= candidates@.len(),
            candidate_models(unique@) == spec_dedup(candidate_models(candidates@.take(i as int))),
        decreases candidates@.len() - i,
    {
        let ghost taken = candidate_models(candidates@.take(i as int + 1));
        proof {
            assert(taken.drop_last() =~= candidate_models(candidates@.take(i as int)));
            assert(taken.last() == candidates@[i as int]@);
        }
        if !contains_candidate(&unique, &candidates[i]) {
            let c = candidates[i].duplicate();
            unique.push(c);
            assert(candidate_models(unique@) =~= spec_dedup(taken));
        } else {
            assert(candidate_models(unique@) =~= spec_dedup(taken));
        }
        i = i + 1;
    }
    proof {
        assert(candidates@.take(candidates@.len() as int) =~= candidates@);
    }
    unique
}

/// The first error in a submitted rule list, in submission order.
pub fn first_error(candidates: &Vec<TimerCandidate>) -> (r: Option<TimerError>)
    ensures
        r == spec_first_error(candidate_models(candidates@)),
{
    let ghost all = candidate_models(candidates@);
    proof {
        assert(all.skip(0) =~= all);
    }
    let mut i: usize = 0;
    while i < candidates.len()
        invariant
            i <= candidates@.len(),
            all == candidate_models(candidates@),
            spec_first_error(all) == spec_first_error(all.skip(i as int)),
        decreases candidates@.len() - i,
    {
        let checked = validate_candidate(&candidates[i]);
        proof {
            assert(all.skip(i as int)[0] == all[i as int]);
            assert(all.skip(i as int).drop_first() =~= all.skip(i as int + 1));
        }
        if checked.is_some() {
            return checked;
        }
        i = i + 1;
    }
    proof {
        assert(all.skip(all.len() as int) =~= Seq::<CandidateModel>::empty());
    }
    None
}

/// A list in which no rule violates a constraint has every rule valid.
proof fn lemma_no_error_all_valid(candidates: Seq<CandidateModel>)
    requires
        spec_first_error(candidates) is None,
    ensures
        forall|i: int|
            0 <= i < candidates.len() ==> spec_validate_candidate(#[trigger] candidates[i])
                is None,
    decreases candidates.len(),
{
    if candidates.len() > 0 {
        lemma_no_error_all_valid(candidates.drop_first());
        assert forall|i: int|
            0 <= i < candidates.len() implies spec_validate_candidate(
            #[trigger] candidates[i],
        ) is None by {
            if i > 0 {
                assert(candidates.drop_first()[i - 1] == candidates[i]);
            }
        }
    }
}

/// The stored rule a valid submitted rule becomes.
fn build_timer(candidate: &TimerCandidate) -> (r: Timer)
    requires
        spec_validate_candidate(candidate@) is None,
    ensures
        r@ == spec_build(candidate@),
        r@.timeday.wf(),
{
    let days = copy_days(&candidate.days);
    let timeday = TimeDay::new(candidate.hour, candidate.minute, days);
    let r = Timer::new(candidate.enable, timeday, candidate.action);
    assert(r@ =~= spec_build(candidate@));
    r
}

/// Replaces the stored rule list with a submitted one, atomically. The
/// submitted list first loses duplicate rules; then every remaining rule is
/// checked against the field constraints. If any rule violates one, the
/// first such violation comes back as the error and neither the stored rule
/// list nor the derived trigger list changes. Otherwise the stored list
/// becomes the deduplicated submission and the trigger list is regenerated
/// from it wholesale.
pub fn replace_timers(
    timers: &mut Vec<Timer>,
    simple_timers: &mut Vec<SimpleTimer>,
    new_timers: &Vec<TimerCandidate>,
) -> (r: Result<(), TimerError>)
    ensures
        ({
            let deduped = spec_dedup(candidate_models(new_timers@));
            match r {
                Ok(_) => {
                    &&& spec_first_error(deduped) is None
                    &&& timer_models(final(timers)@) == spec_build_all(deduped)
                    &&& simple_timer_models(final(simple_timers)@) == spec_process(
                        spec_build_all(deduped),
                    )
                },
                Err(e) => {
                    &&& Some(e) == spec_first_error(deduped)
                    &&& final(timers)@ == old(timers)@
                    &&& final(simple_timers)@ == old(simple_timers)@
                },
            }
        }),
{
    let deduped = dedup_candidates(new_timers);
    let checked = first_error(&deduped);
    match checked {
        Some(e) => Err(e),
        None => {
            proof {
                lemma_no_error_all_valid(candidate_models(deduped@));
            }
            let mut built: Vec<Timer> = Vec::new();
            let mut i: usize = 0;
            while i < deduped.len()
                invariant
                    i <= deduped@.len(),
                    spec_first_error(candidate_models(deduped@)) is None,
                    forall|k: int|
                        0 <= k < deduped@.len() ==> spec_validate_candidate(
                            #[trigger] candidate_models(deduped@)[k],
                        ) is None,
                    timer_models(built@) == spec_build_all(
                        candidate_models(deduped@.take(i as int)),
                    ),
                    forall|k: int| 0 <= k < built@.len() ==> (#[trigger] built@[k])@.timeday.wf(),
                decreases deduped@.len() - i,
            {
                assert(candidate_models(deduped@)[i as int] == deduped@[i as int]@);
                let t = build_timer(&deduped[i]);
                let ghost prior: Seq<Timer> = built@;
                built.push(t);
                proof {
                    assert(candidate_models(deduped@.take(i as int + 1)) =~= candidate_models(
                        deduped@.take(i as int),
                    ).push(deduped@[i as int]@));
                    assert(spec_build_all(
                        candidate_models(deduped@.take(i as int)).push(deduped@[i as int]@),
                    ) =~= spec_build_all(candidate_models(deduped@.take(i as int))).push(
                        spec_build(deduped@[i as int]@),
                    ));
                    assert(timer_models(built@) =~= timer_models(prior).push(t@));
                }
                i = i + 1;
            }
            proof {
                assert(deduped@.take(deduped@.len() as int) =~= deduped@);
            }
            *timers = built;
            process_timers(timers, simple_timers);
            Ok(())
        },
    }
}

/// Every member of a list survives deduplication.
proof fn lemma_dedup_keeps_member(candidates: Seq<CandidateModel>, i: int)
    requires
        0 <= i < candidates.len(),
    ensures
        spec_dedup(candidates).contains(candidates[i]),
    decreases candidates.len(),
{
    let pre = spec_dedup(candidates.drop_last());
    if i == candidates.len() - 1 {
        if pre.contains(candidates.last()) {
        } else {
            assert(pre.push(candidates.last()).last() == candidates.last());
        }
    } else {
        assert(candidates.drop_last()[i] == candidates[i]);
        lemma_dedup_keeps_member(candidates.drop_last(), i);
        let k = choose|k: int| 0 <= k < pre.len() && pre[k] == candidates[i];
        if pre.contains(candidates.last()) {
        } else {
            assert(pre.push(candidates.last())[k] == candidates[i]);
        }
    }
}

/// A list that holds an invalid rule is rejected.
proof fn lemma_invalid_member_rejected(candidates: Seq<CandidateModel>, c: CandidateModel)
    requires
        candidates.contains(c),
        spec_validate_candidate(c) is Some,
    ensures
        spec_first_error(candidates) is Some,
    decreases candidates.len(),
{
    if spec_validate_candidate(candidates[0]) is Some {
    } else {
        let k = choose|k: int| 0 <= k < candidates.len() && candidates[k] == c;
        assert(k != 0);
        assert(candidates.drop_first()[k - 1] == c);
        assert(candidates.drop_first().contains(c));
        lemma_invalid_member_rejected(candidates.drop_first(), c);
    }
}

/// Law: a submitted rule list containing a brightness state of zero is
/// rejected with a field-range error. Together with `replace_timers`'
/// contract, the stored rule list is untouched by such a submission.
pub proof fn lemma_zero_brightness_rejected(candidates: Seq<CandidateModel>, i: int)
    requires
        0 <= i < candidates.len(),
        candidates[i].action == (TimerAction::BrightnessState { brightness: 0u8 }),
    ensures
        spec_first_error(spec_dedup(candidates)) is Some,
{
    lemma_dedup_keeps_member(candidates, i);
    assert(spec_validate_candidate(candidates[i]) is Some);
    lemma_invalid_member_rejected(spec_dedup(candidates), candidates[i]);
}

} // verus!
