use vstd::prelude::*;
use vstd::arithmetic::div_mod::*;
use chrono::Datelike;
use chrono::Timelike;

verus! {

/// Mathematical model of a `TimeDay`: an hour and minute of the day together
/// with the set of weekdays (0 = Monday .. 6 = Sunday) it applies to,
/// kept as a strictly ascending sequence.
#[verifier::ext_equal]
pub ghost struct TimeDayModel {
    pub hour: int,
    pub minute: int,
    pub days: Seq<u8>,
}

impl TimeDayModel {
    /// Well-formedness: fields in range, day list non-empty, strictly ascending
    /// (hence deduplicated) and within 0..=6.
    pub open spec fn wf(self) -> bool {
        &&& 0 <= self.hour <= 23
        &&& 0 <= self.minute <= 59
        &&& 1 <= self.days.len() <= 7
        &&& forall|i: int| 0 <= i < self.days.len() ==> self.days[i] <= 6
        &&& forall|i: int, j: int| 0 <= i < j < self.days.len() ==> self.days[i] < self.days[j]
    }
}

/// The normalized day list built from the day values below `n` that occur in
/// `days`, in ascending order.
pub open spec fn normalize_days_upto(days: Seq<u8>, n: nat) -> Seq<u8>
    decreases n,
{
    if n == 0 {
        Seq::empty()
    } else if days.contains((n - 1) as u8) {
        normalize_days_upto(days, (n - 1) as nat) + seq![(n - 1) as u8]
    } else {
        normalize_days_upto(days, (n - 1) as nat)
    }
}

/// Normal form of a day list: duplicates removed and sorted ascending.
/// Only day values 0..=6 are meaningful, and constructors require them.
pub open spec fn normalize_days(days: Seq<u8>) -> Seq<u8> {
    normalize_days_upto(days, 7)
}

/// A weekday moved `rot` steps forward in the week (backward for negative
/// `rot`), wrapping between Sunday and Monday.
pub open spec fn spec_rotate_day(d: u8, rot: int) -> u8 {
    ((d + rot) % 7) as u8
}

/// The time-of-day `delta` minutes after `t` (before, for negative `delta`),
/// with every day in the set moved by the number of day boundaries crossed.
pub open spec fn spec_shift(t: TimeDayModel, delta: int) -> TimeDayModel {
    let total = t.hour * 60 + t.minute + delta;
    TimeDayModel {
        hour: (total % 1440) / 60,
        minute: (total % 1440) % 60,
        days: normalize_days(t.days.map_values(|d: u8| spec_rotate_day(d, total / 1440))),
    }
}

/// An hour/minute/weekday-set value with arithmetic to shift forward and
/// backward across day and week boundaries.
#[derive(Debug)]
pub struct TimeDay {
    hour: u8,
    minute: u8,
    days: Vec<u8>,
}

impl View for TimeDay {
    type V = TimeDayModel;

    closed spec fn view(&self) -> TimeDayModel {
        TimeDayModel { hour: self.hour as int, minute: self.minute as int, days: self.days@ }
    }
}

/// Properties of the normal form: it contains a day value iff the input list
/// contains it and it is below `n`; it is strictly ascending; its values are
/// below `n`; and it is no longer than `n`.
pub proof fn lemma_normalize_days_upto_props(days: Seq<u8>, n: nat)
    requires
        n <= 7,
    ensures
        forall|x: u8|
            #[trigger] normalize_days_upto(days, n).contains(x) <==> (x < n && days.contains(x)),
        forall|i: int, j: int|
            0 <= i < j < normalize_days_upto(days, n).len() ==> normalize_days_upto(days, n)[i]
                < normalize_days_upto(days, n)[j],
        forall|i: int|
            0 <= i < normalize_days_upto(days, n).len() ==> normalize_days_upto(days, n)[i] < n,
        normalize_days_upto(days, n).len() <= n,
    decreases n,
{
    if n == 0 {
        assert forall|x: u8| #[trigger] normalize_days_upto(days, n).contains(x) implies (x < n
            && days.contains(x)) by {
            let i = choose|i: int|
                0 <= i < normalize_days_upto(days, n).len() && normalize_days_upto(days, n)[i]
                    == x;
        }
    } else {
        let prev = normalize_days_upto(days, (n - 1) as nat);
        let cur = normalize_days_upto(days, n);
        lemma_normalize_days_upto_props(days, (n - 1) as nat);
        if days.contains((n - 1) as u8) {
            assert(cur == prev + seq![(n - 1) as u8]);
            assert forall|x: u8| #[trigger] cur.contains(x) implies (x < n && days.contains(x)) by {
                let i = choose|i: int| 0 <= i < cur.len() && cur[i] == x;
                if i < prev.len() {
                    assert(prev[i] == x);
                    assert(prev.contains(x));
                } else {
                    assert(x == (n - 1) as u8);
                }
            }
            assert forall|x: u8| (x < n && days.contains(x)) implies #[trigger] cur.contains(
                x,
            ) by {
                if x < n - 1 {
                    assert(prev.contains(x));
                    let i = choose|i: int| 0 <= i < prev.len() && prev[i] == x;
                    assert(cur[i] == x);
                } else {
                    assert(cur[cur.len() - 1] == x);
                }
            }
        } else {
            assert(cur == prev);
            assert forall|x: u8| #[trigger] cur.contains(x) implies (x < n && days.contains(
                x,
            )) by {
                assert(prev.contains(x));
            }
            assert forall|x: u8| (x < n && days.contains(x)) implies #[trigger] cur.contains(
                x,
            ) by {
                assert(x != (n - 1) as u8);
                assert(prev.contains(x));
            }
        }
    }
}

/// The normal form of a non-empty day list within 0..=6 is itself non-empty,
/// keeps exactly the members of the input, and is strictly ascending.
pub proof fn lemma_normalize_days_props(days: Seq<u8>)
    requires
        1 <= days.len(),
        forall|i: int| 0 <= i < days.len() ==> days[i] <= 6,
    ensures
        forall|x: u8| #[trigger] normalize_days(days).contains(x) <==> days.contains(x),
        forall|i: int, j: int|
            0 <= i < j < normalize_days(days).len() ==> normalize_days(days)[i] < normalize_days(
                days,
            )[j],
        forall|i: int| 0 <= i < normalize_days(days).len() ==> normalize_days(days)[i] <= 6,
        1 <= normalize_days(days).len() <= 7,
{
    lemma_normalize_days_upto_props(days, 7);
    assert(days.contains(days[0]));
    assert(normalize_days(days).contains(days[0]));
    assert forall|x: u8| days.contains(x) implies #[trigger] normalize_days(days).contains(x) by {
        let i = choose|i: int| 0 <= i < days.len() && days[i] == x;
        assert(days[i] <= 6);
    }
}

impl TimeDay {
    /// Constructs a `TimeDay`. The stored hour and minute are the inputs and
    /// the stored day list is the normal form of the input day list.
    /// Inputs out of range are a configuration error and are excluded.
    pub fn new(hour: u8, minute: u8, days: Vec<u8>) -> (r: TimeDay)
        requires
            hour <= 23,
            minute <= 59,
            1 <= days@.len() <= 7,
            forall|i: int| 0 <= i < days@.len() ==> days@[i] <= 6,
        ensures
            r@.hour == hour as int,
            r@.minute == minute as int,
            r@.days == normalize_days(days@),
            r@.wf(),
    {
        let mut instance = TimeDay { hour: 0, minute: 0, days: Vec::new() };
        instance.set_hour(hour);
        instance.set_minute(minute);
        instance.set_days(days);
        proof {
            lemma_normalize_days_props(days@);
        }
        instance
    }

    /// Current time and weekday in the configured timezone.
    ///
    /// Relies on chrono's `Utc::now` and `DateTime::with_timezone` together
    /// with the `Timelike` accessors `hour` (0..=23) and `minute` (0..=59)
    /// and the `Datelike` accessor `weekday().num_days_from_monday` (0..=6),
    /// as chrono documents them. The result depends on the wall clock, so
    /// nothing is said beyond well-formedness.
    #[verifier::external_body]
    pub fn now() -> (r: TimeDay)
        ensures
            r@.wf(),
            r@.days.len() == 1,
    {
        let moment = chrono::Utc::now().with_timezone(&chrono_tz::Europe::Berlin);
        TimeDay {
            hour: moment.hour() as u8,
            minute: moment.minute() as u8,
            days: vec![moment.weekday().num_days_from_monday() as u8],
        }
    }

    /// The hour, 0..=23.
    pub fn get_hour(&self) -> (r: &u8)
        ensures
            *r as int == self@.hour,
    {
        &self.hour
    }

    /// The minute, 0..=59.
    pub fn get_minute(&self) -> (r: &u8)
        ensures
            *r as int == self@.minute,
    {
        &self.minute
    }

    /// The normalized day list, ascending, values 0 (Monday) to 6 (Sunday).
    pub fn get_days(&self) -> (r: &Vec<u8>)
        ensures
            r@ == self@.days,
    {
        &self.days
    }

    /// 0 to 23; values out of range are excluded.
    fn set_hour(&mut self, hour: u8)
        requires
            hour <= 23,
        ensures
            final(self)@.hour == hour as int,
            final(self)@.minute == old(self)@.minute,
            final(self)@.days == old(self)@.days,
    {
        self.hour = hour;
    }

    /// 0 to 59; values out of range are excluded.
    fn set_minute(&mut self, minute: u8)
        requires
            minute <= 59,
        ensures
            final(self)@.minute == minute as int,
            final(self)@.hour == old(self)@.hour,
            final(self)@.days == old(self)@.days,
    {
        self.minute = minute;
    }

    /// Stores the normal form of `days`: duplicates removed, sorted ascending.
    /// An empty list, more than 7 entries, or a value above 6 is excluded.
    fn set_days(&mut self, days: Vec<u8>)
        requires
            1 <= days@.len() <= 7,
            forall|i: int| 0 <= i < days@.len() ==> days@[i] <= 6,
        ensures
            final(self)@.days == normalize_days(days@),
            final(self)@.hour == old(self)@.hour,
            final(self)@.minute == old(self)@.minute,
    {
        let mut normalized: Vec<u8> = Vec::new();
        let mut d: u8 = 0;
        while d < 7
            invariant
                d <= 7,
                normalized@ == normalize_days_upto(days@, d as nat),
            decreases 7 - d,
        {
            if contains_day(&days, d) {
                normalized.push(d);
                assert(normalized@ =~= normalize_days_upto(days@, (d + 1) as nat));
            } else {
                assert(normalized@ =~= normalize_days_upto(days@, (d + 1) as nat));
            }
            d = d + 1;
        }
        self.days = normalized;
    }

    /// A copy of this value.
    pub fn duplicate(&self) -> (r: TimeDay)
        ensures
            r@ == self@,
    {
        TimeDay { hour: self.hour, minute: self.minute, days: copy_days(&self.days) }
    }

    /// Shifts this time by the given hour and minute deltas, forward or
    /// backward, rolling the day set across midnight and the week boundary.
    pub fn shift_time(&self, hour_shift: i16, minute_shift: i16) -> (r: TimeDay)
        requires
            self@.wf(),
        ensures
            r@ == spec_shift(self@, (hour_shift as int) * 60 + (minute_shift as int)),
            r@.wf(),
    {
        let mut total_minutes: i32 = (self.minute as i32) + (self.hour as i32) * 60
            + (minute_shift as i32) + (hour_shift as i32) * 60;
        let ghost t0: int = total_minutes as int;
        let ghost delta: int = (hour_shift as int) * 60 + (minute_shift as int);
        assert(t0 == self@.hour * 60 + self@.minute + delta);

        let ghost mut net: int = 0;
        let mut rot: u8 = 0;

        // shift days backward until total_minutes is positive
        while total_minutes < 0
            invariant
                t0 == total_minutes + 1440 * net,
                total_minutes >= t0,
                t0 >= -2100000,
                rot == net % 7,
            decreases (if total_minutes < 0 {
                -(total_minutes as int)
            } else {
                0int
            }),
        {
            total_minutes = total_minutes + 1440;
            proof {
                let prior = net;
                net = net - 1;
                lemma_sub_mod_noop(prior, 1, 7);
            }
            rot = if rot == 0 {
                6
            } else {
                rot - 1
            };
        }

        // shift days forward until total_minutes is less than a day
        while total_minutes >= 1440
            invariant
                t0 == total_minutes + 1440 * net,
                total_minutes >= 0,
                rot == net % 7,
            decreases total_minutes,
        {
            total_minutes = total_minutes - 1440;
            proof {
                let prior = net;
                net = net + 1;
                lemma_add_mod_noop(prior, 1, 7);
            }
            rot = if rot == 6 {
                0
            } else {
                rot + 1
            };
        }

        proof {
            lemma_fundamental_div_mod_converse(t0, 1440, net, total_minutes as int);
        }
        assert(net == t0 / 1440);
        assert(total_minutes as int == t0 % 1440);

        let mut shifted_days: Vec<u8> = Vec::new();
        let mut i: usize = 0;
        while i < self.days.len()
            invariant
                i <= self.days@.len(),
                shifted_days@.len() == i,
                forall|j: int|
                    0 <= j < i ==> shifted_days@[j] == spec_rotate_day(self.days@[j], net),
                rot == net % 7,
                rot <= 6,
                forall|j: int| 0 <= j < self.days@.len() ==> self.days@[j] <= 6,
            decreases self.days@.len() - i,
        {
            let d = self.days[i];
            proof {
                lemma_small_mod(d as nat, 7);
                lemma_add_mod_noop(d as int, net, 7);
                lemma_mod_bound(d + net % 7, 7);
            }
            shifted_days.push((d + rot) % 7);
            i = i + 1;
        }
        assert(shifted_days@ =~= self@.days.map_values(|d: u8| spec_rotate_day(d, net)));

        let hour = (total_minutes / 60) as u8;
        let minute = (total_minutes % 60) as u8;
        TimeDay::new(hour, minute, shifted_days)
    }
}

/// Whether `days` contains the value `d`.
pub(crate) fn contains_day(days: &Vec<u8>, d: u8) -> (r: bool)
    ensures
        r == days@.contains(d),
{
    let mut i: usize = 0;
    while i < days.len()
        invariant
            i <= days@.len(),
            forall|j: int| 0 <= j < i ==> days@[j] != d,
        decreases days@.len() - i,
    {
        if days[i] == d {
            assert(days@.contains(d)) by {
                assert(days@[i as int] == d);
            }
            return true;
        }
        i = i + 1;
    }
    false
}

/// An element-wise copy of a day list.
pub(crate) fn copy_days(days: &Vec<u8>) -> (r: Vec<u8>)
    ensures
        r@ == days@,
{
    let mut copy: Vec<u8> = Vec::new();
    let mut i: usize = 0;
    while i < days.len()
        invariant
            i <= days@.len(),
            copy@ =~= days@.take(i as int),
        decreases days@.len() - i,
    {
        copy.push(days[i]);
        i = i + 1;
    }
    assert(copy@ =~= days@);
    copy
}

/// Whether two day lists hold the same values in the same order.
pub(crate) fn days_equal(a: &Vec<u8>, b: &Vec<u8>) -> (r: bool)
    ensures
        r == (a@ == b@),
{
    if a.len() != b.len() {
        return false;
    }
    let mut i: usize = 0;
    while i < a.len()
        invariant
            i <= a@.len(),
            a@.len() == b@.len(),
            forall|j: int| 0 <= j < i ==> a@[j] == b@[j],
        decreases a@.len() - i,
    {
        if a[i] != b[i] {
            return false;
        }
        i = i + 1;
    }
    assert(a@ =~= b@);
    true
}

/// Two strictly ascending day lists with the same members are the same list.
pub proof fn lemma_sorted_same_membership(a: Seq<u8>, b: Seq<u8>)
    requires
        forall|i: int, j: int| 0 <= i < j < a.len() ==> a[i] < a[j],
        forall|i: int, j: int| 0 <= i < j < b.len() ==> b[i] < b[j],
        forall|x: u8| #[trigger] a.contains(x) <==> b.contains(x),
    ensures
        a == b,
    decreases a.len(),
{
    if a.len() == 0 {
        if b.len() > 0 {
            assert(b.contains(b[0]));
            assert(a.contains(b[0]));
        }
        assert(a =~= b);
    } else {
        assert(a.contains(a[0]));
        assert(b.contains(a[0]));
        let j0 = choose|j: int| 0 <= j < b.len() && b[j] == a[0];
        assert(b.contains(b[0]));
        assert(a.contains(b[0]));
        let i0 = choose|i: int| 0 <= i < a.len() && a[i] == b[0];
        assert(a[0] == b[0]) by {
            if i0 > 0 {
                assert(a[0] < a[i0]);
            }
            if j0 > 0 {
                assert(b[0] < b[j0]);
            }
        }
        let at = a.drop_first();
        let bt = b.drop_first();
        assert forall|x: u8| #[trigger] at.contains(x) implies bt.contains(x) by {
            let i = choose|i: int| 0 <= i < at.len() && at[i] == x;
            assert(a[i + 1] == x);
            assert(a.contains(x));
            assert(a[0] < x);
            assert(b.contains(x));
            let j = choose|j: int| 0 <= j < b.len() && b[j] == x;
            assert(j != 0);
            assert(bt[j - 1] == x);
        }
        assert forall|x: u8| #[trigger] bt.contains(x) implies at.contains(x) by {
            let j = choose|j: int| 0 <= j < bt.len() && bt[j] == x;
            assert(b[j + 1] == x);
            assert(b.contains(x));
            assert(b[0] < x);
            assert(a.contains(x));
            let i = choose|i: int| 0 <= i < a.len() && a[i] == x;
            assert(i != 0);
            assert(at[i - 1] == x);
        }
        lemma_sorted_same_membership(at, bt);
        assert forall|i: int| 0 <= i < a.len() implies a[i] == b[i] by {
            if i > 0 {
                assert(at[i - 1] == a[i]);
                assert(bt[i - 1] == b[i]);
            }
        }
        assert(a =~= b);
    }
}

/// Moving a weekday by `q` steps and back is the identity.
proof fn lemma_rotate_day_inverse(d: u8, q: int)
    requires
        d <= 6,
    ensures
        spec_rotate_day(spec_rotate_day(d, q), -q) == d,
{
    let e = (d + q) % 7;
    lemma_mod_bound(d + q, 7);
    lemma_add_mod_noop_right(-q, d + q, 7);
    lemma_small_mod(d as nat, 7);
    assert((e + (-q)) % 7 == (-q + (d + q)) % 7);
}

/// Law: shifting is inverse. Shifting any well-formed time by `delta`
/// minutes and then by `-delta` minutes gives back the original time,
/// including its day set.
pub proof fn lemma_shift_inverse(t: TimeDayModel, delta: int)
    requires
        t.wf(),
    ensures
        spec_shift(spec_shift(t, delta), -delta) == t,
{
    let base = t.hour * 60 + t.minute;
    let tot = base + delta;
    let q = tot / 1440;
    let m = tot % 1440;
    lemma_fundamental_div_mod(tot, 1440);
    lemma_mod_bound(tot, 1440);
    let t1 = spec_shift(t, delta);
    lemma_fundamental_div_mod(m, 60);
    assert(t1.hour * 60 + t1.minute == m);
    let tot2 = t1.hour * 60 + t1.minute + (-delta);
    assert(tot2 == base - 1440 * q);
    lemma_fundamental_div_mod_converse(tot2, 1440, -q, base);
    lemma_fundamental_div_mod_converse(base, 60, t.hour, t.minute);
    let t2 = spec_shift(t1, -delta);
    assert(t2.hour == t.hour);
    assert(t2.minute == t.minute);

    let rotated = t.days.map_values(|d: u8| spec_rotate_day(d, q));
    assert(t1.days == normalize_days(rotated));
    lemma_normalize_days_upto_props(rotated, 7);
    let back = t1.days.map_values(|d: u8| spec_rotate_day(d, -q));
    assert(t2.days == normalize_days(back));
    lemma_normalize_days_upto_props(back, 7);

    assert forall|x: u8| #[trigger] t.days.contains(x) implies t2.days.contains(x) by {
        let i = choose|i: int| 0 <= i < t.days.len() && t.days[i] == x;
        assert(rotated[i] == spec_rotate_day(x, q));
        assert(rotated.contains(spec_rotate_day(x, q)));
        lemma_mod_bound(x + q, 7);
        assert(spec_rotate_day(x, q) < 7);
        assert(t1.days.contains(spec_rotate_day(x, q)));
        let j = choose|j: int| 0 <= j < t1.days.len() && t1.days[j] == spec_rotate_day(x, q);
        lemma_rotate_day_inverse(x, q);
        assert(back[j] == x);
        assert(back.contains(x));
        assert(x < 7);
    }
    assert forall|x: u8| #[trigger] t2.days.contains(x) implies t.days.contains(x) by {
        assert(back.contains(x));
        let j = choose|j: int| 0 <= j < back.len() && back[j] == x;
        let e = t1.days[j];
        assert(t1.days.contains(e));
        assert(rotated.contains(e));
        let i = choose|i: int| 0 <= i < rotated.len() && rotated[i] == e;
        let d = t.days[i];
        assert(e == spec_rotate_day(d, q));
        lemma_rotate_day_inverse(d, q);
        assert(x == spec_rotate_day(e, -q));
        assert(x == d);
        assert(t.days.contains(d));
    }
    lemma_sorted_same_membership(t2.days, t.days);
    assert(t2 =~= t);
}

impl PartialEq for TimeDay {
    /// Exact field equality on the normalized representation.
    fn eq(&self, other: &TimeDay) -> (r: bool) {
        let r = self.hour == other.hour && self.minute == other.minute && days_equal(
            &self.days,
            &other.days,
        );
        proof {
            if r {
                assert(self@ =~= other@);
            }
        }
        r
    }
}

impl vstd::std_specs::cmp::PartialEqSpecImpl for TimeDay {
    open spec fn obeys_eq_spec() -> bool {
        true
    }

    open spec fn eq_spec(&self, other: &TimeDay) -> bool {
        self@ == other@
    }
}

} // verus!
