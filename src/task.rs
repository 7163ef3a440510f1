use vstd::prelude::*;

use crate::calendar::{
    lemma_local_seconds_bounds, local_seconds_in_range, shifted, DateTime, Time, SECONDS_PER_DAY,
};
use crate::skip::{is_skipped, skipped_by, skips_valid, skips_wf, Skip, SkipModel};

verus! {

/// How far ahead, in seconds, the search for a next firing looks (eight days).
pub const LOOKAHEAD_SECONDS: u64 = 691200;

/// Days after the first occurrence that the search for a daily firing also tries.
pub const LOOKAHEAD_DAYS: u64 = 7;

/// When a task fires, with the rules that turn a firing into a skip.
#[derive(Clone, Debug)]
pub enum Task {
    /// Fire once, this many seconds after the task is run.
    Wait(u64, Option<Vec<Skip>>),
    /// Fire every this many seconds until cancelled.
    Interval(u64, Option<Vec<Skip>>),
    /// Fire every day at this wall-clock time until cancelled.
    At(Time, Option<Vec<Skip>>),
    /// Fire once at this instant.
    Once(DateTime, Option<Vec<Skip>>),
}

/// What a driver tells a task when one of its firings comes due.
#[derive(Clone, Copy, Debug, PartialEq, Eq, Structural)]
pub enum Notice {
    /// The firing happens.
    OnTime,
    /// A rule turned the firing into a skip.
    OnSkip,
}

/// What a driver of a one-shot instant does once it has read the clock.
#[derive(Clone, Copy, Debug, PartialEq, Eq, Structural)]
pub enum OncePlan {
    /// Tell the task of a skip at once, and stop.
    SkipNow,
    /// Sleep this many whole seconds (unless cancelled), then fire, and stop.
    FireAfter(u64),
}

/// The value a schedule stands for, with its rules as sequences of rule values.
pub ghost enum TaskModel {
    Wait(u64, Option<Seq<SkipModel>>),
    Interval(u64, Option<Seq<SkipModel>>),
    At(Time, Option<Seq<SkipModel>>),
    Once(DateTime, Option<Seq<SkipModel>>),
}

/// The value of a rule list.
pub open spec fn skips_view(skips: Option<Vec<Skip>>) -> Option<Seq<SkipModel>> {
    match skips {
        Some(list) => Some(list@.map_values(|k: Skip| k@)),
        None => None,
    }
}

impl View for Task {
    type V = TaskModel;

    open spec fn view(&self) -> TaskModel {
        match self {
            Task::Wait(s, k) => TaskModel::Wait(*s, skips_view(*k)),
            Task::Interval(p, k) => TaskModel::Interval(*p, skips_view(*k)),
            Task::At(t, k) => TaskModel::At(*t, skips_view(*k)),
            Task::Once(d, k) => TaskModel::Once(*d, skips_view(*k)),
        }
    }
}

impl PartialEq for Task {
    fn eq(&self, other: &Task) -> (r: bool) {
        match (self, other) {
            (Task::Wait(a, s), Task::Wait(b, t)) => *a == *b && skip_lists_equal(s, t),
            (Task::Interval(a, s), Task::Interval(b, t)) => *a == *b && skip_lists_equal(s, t),
            (Task::At(a, s), Task::At(b, t)) => *a == *b && skip_lists_equal(s, t),
            (Task::Once(a, s), Task::Once(b, t)) => *a == *b && skip_lists_equal(s, t),
            _ => false,
        }
    }
}

impl vstd::std_specs::cmp::PartialEqSpecImpl for Task {
    open spec fn obeys_eq_spec() -> bool {
        true
    }

    open spec fn eq_spec(&self, other: &Task) -> bool {
        self@ == other@
    }
}

/// Whether two rule lists are equal: both absent, or equal rules in the same order.
pub fn skip_lists_equal(a: &Option<Vec<Skip>>, b: &Option<Vec<Skip>>) -> (r: bool)
    ensures
        r == (skips_view(*a) == skips_view(*b)),
{
    match (a, b) {
        (Some(x), Some(y)) => rule_vecs_equal(x, y),
        (None, None) => true,
        _ => false,
    }
}

fn rule_vecs_equal(x: &Vec<Skip>, y: &Vec<Skip>) -> (r: bool)
    ensures
        r == (x@.map_values(|k: Skip| k@) == y@.map_values(|k: Skip| k@)),
{
    if x.len() != y.len() {
        assert(x@.map_values(|k: Skip| k@).len() != y@.map_values(|k: Skip| k@).len());
        return false;
    }
    let mut i: usize = 0;
    while i < x.len()
        invariant
            x@.len() == y@.len(),
            0 <= i <= x@.len(),
            forall|j: int| 0 <= j < i ==> (#[trigger] x@[j])@ == y@[j]@,
        decreases x@.len() - i,
    {
        if !x[i].eq(&y[i]) {
            assert(x@.map_values(|k: Skip| k@)[i as int] != y@.map_values(|k: Skip| k@)[i as int]);
            return false;
        }
        i = i + 1;
    }
    assert(x@.map_values(|k: Skip| k@) =~= y@.map_values(|k: Skip| k@));
    true
}

/// The first of the moments `start` moved `j * step` seconds, for `j` from `k` to `last`,
/// that no rule skips; the search ends at the first moment that leaves the supported range.
pub open spec fn first_free(
    skips: Option<Vec<Skip>>,
    start: DateTime,
    step: int,
    k: int,
    last: int,
) -> Option<DateTime>
    decreases last + 1 - k,
{
    if k > last {
        None
    } else if !local_seconds_in_range(start.local_seconds() + k * step) {
        None
    } else if !skipped_by(skips, shifted(start, k * step)) {
        Some(shifted(start, k * step))
    } else {
        first_free(skips, start, step, k + 1, last)
    }
}

/// How many periods of an interval the search for its next firing tries.
pub open spec fn interval_periods(period: int) -> int {
    if period == 0 || period >= LOOKAHEAD_SECONDS {
        1
    } else {
        LOOKAHEAD_SECONDS as int / period
    }
}

/// The first occurrence of the wall-clock time `t` not before `now`, on `now`'s clock:
/// today unless `t` has already passed today (it is `now` itself where the two are equal),
/// else tomorrow.
pub open spec fn first_occurrence(now: DateTime, t: Time) -> Option<DateTime> {
    let today = DateTime { date: now.date, time: t, offset_seconds: now.offset_seconds };
    if now.time.nanos_of_day() <= t.nanos_of_day() {
        Some(today)
    } else if local_seconds_in_range(today.local_seconds() + SECONDS_PER_DAY) {
        Some(shifted(today, SECONDS_PER_DAY as int))
    } else {
        None
    }
}

/// Whole seconds from `now` until `target`, rounded toward zero; zero where `target` is
/// not later than `now`.
pub open spec fn whole_seconds_until(now: DateTime, target: DateTime) -> int {
    let d = (target.instant_seconds() - now.instant_seconds()) * 1_000_000_000
        + target.time.nanosecond - now.time.nanosecond;
    if d <= 0 {
        0
    } else {
        d / 1_000_000_000
    }
}

impl Task {
    /// The task's skip rules.
    pub open spec fn skip_rules(self) -> Option<Vec<Skip>> {
        match self {
            Task::Wait(_, s) => s,
            Task::Interval(_, s) => s,
            Task::At(_, s) => s,
            Task::Once(_, s) => s,
        }
    }

    /// The times, instants and rules the task holds are valid.
    pub open spec fn wf(self) -> bool {
        &&& skips_wf(self.skip_rules())
        &&& match self {
            Task::At(t, _) => t.wf(),
            Task::Once(d, _) => d.wf(),
            _ => true,
        }
    }

    /// What the task is told when a firing comes due at `at`.
    pub open spec fn notice_for(self, at: DateTime) -> Notice {
        if skipped_by(self.skip_rules(), at) {
            Notice::OnSkip
        } else {
            Notice::OnTime
        }
    }

    /// When the task would next fire, run at `now`; `None` where it would not fire within
    /// the lookahead.
    pub open spec fn next_run(self, now: DateTime) -> Option<DateTime> {
        match self {
            Task::Wait(s, skips) => first_free(skips, now, s as int, 1, 1),
            Task::Interval(p, skips) => first_free(
                skips,
                now,
                p as int,
                1,
                interval_periods(p as int),
            ),
            Task::At(t, skips) => match first_occurrence(now, t) {
                Some(first) => first_free(
                    skips,
                    first,
                    SECONDS_PER_DAY as int,
                    0,
                    LOOKAHEAD_DAYS as int,
                ),
                None => None,
            },
            Task::Once(target, skips) => if now.spec_is_before(target) && !skipped_by(
                skips,
                target,
            ) {
                Some(target)
            } else {
                None
            },
        }
    }

    /// What a driver of a one-shot instant does, having read `now`.
    pub open spec fn once_plan(target: DateTime, skips: Option<Vec<Skip>>, now: DateTime) -> OncePlan {
        if !now.spec_is_before(target) || skipped_by(skips, target) {
            OncePlan::SkipNow
        } else {
            OncePlan::FireAfter(whole_seconds_until(now, target) as u64)
        }
    }

    /// The task's skip rules.
    pub fn skips(&self) -> (r: &Option<Vec<Skip>>)
        ensures
            *r == self.skip_rules(),
    {
        match self {
            Task::Wait(_, s) => s,
            Task::Interval(_, s) => s,
            Task::At(_, s) => s,
            Task::Once(_, s) => s,
        }
    }

    /// Whether the times, instants and rules the task holds are valid.
    pub fn is_valid(&self) -> (r: bool)
        ensures
            r == self.wf(),
    {
        let own = match self {
            Task::At(t, _) => t.is_valid(),
            Task::Once(d, _) => d.is_valid(),
            _ => true,
        };
        own && skips_valid(self.skips())
    }

    /// What the task is told when a firing comes due at `at`: a skip where some rule matches.
    pub fn notice_at(&self, at: DateTime) -> (r: Notice)
        requires
            self.wf(),
            at.wf(),
        ensures
            r == self.notice_for(at),
    {
        if is_skipped(self.skips(), at) {
            Notice::OnSkip
        } else {
            Notice::OnTime
        }
    }

    /// When the task would next fire, run at `now`.
    pub fn next_run_time(&self, now: DateTime) -> (r: Option<DateTime>)
        requires
            self.wf(),
            now.wf(),
        ensures
            r == self.next_run(now),
    {
        match self {
            Task::Wait(s, skips) => {
                if *s > 1_000_000_000_000 {
                    proof {
                        lemma_local_seconds_bounds(now);
                    }
                    None
                } else {
                    search_free(skips, now, *s, 1, 1)
                }
            },
            Task::Interval(p, skips) => {
                if *p > 1_000_000_000_000 {
                    proof {
                        lemma_local_seconds_bounds(now);
                    }
                    None
                } else {
                    let last: u64 = if *p == 0 || *p >= LOOKAHEAD_SECONDS {
                        1
                    } else {
                        LOOKAHEAD_SECONDS / *p
                    };
                    proof {
                        if *p > 0 && *p < LOOKAHEAD_SECONDS {
                            assert(last * *p <= LOOKAHEAD_SECONDS) by (nonlinear_arith)
                                requires
                                    last == LOOKAHEAD_SECONDS / *p,
                                    *p > 0,
                            ;
                        }
                    }
                    search_free(skips, now, *p, 1, last)
                }
            },
            Task::At(t, skips) => match first_occurrence_of(now, *t) {
                Some(first) => search_free(skips, first, SECONDS_PER_DAY as u64, 0, LOOKAHEAD_DAYS),
                None => None,
            },
            Task::Once(target, skips) => {
                if now.is_before(target) && !is_skipped(skips, *target) {
                    Some(*target)
                } else {
                    None
                }
            },
        }
    }
}

/// Searches the moments `start` moved `j * step` seconds, for `j` from `first` to `last`.
fn search_free(
    skips: &Option<Vec<Skip>>,
    start: DateTime,
    step: u64,
    first: u64,
    last: u64,
) -> (r: Option<DateTime>)
    requires
        skips_wf(*skips),
        start.wf(),
        last <= LOOKAHEAD_SECONDS,
        last * step <= 1_000_000_000_000,
    ensures
        r == first_free(*skips, start, step as int, first as int, last as int),
{
    let mut k: u64 = first;
    while k <= last
        invariant
            skips_wf(*skips),
            start.wf(),
            last <= LOOKAHEAD_SECONDS,
            last * step <= 1_000_000_000_000,
            first <= k,
            first_free(*skips, start, step as int, first as int, last as int) == first_free(
                *skips,
                start,
                step as int,
                k as int,
                last as int,
            ),
        decreases last + 1 - k,
    {
        assert(k * step <= last * step) by (nonlinear_arith)
            requires
                k <= last,
        ;
        let offset: u64 = k * step;
        match start.checked_add_seconds(offset as i64) {
            None => {
                return None;
            },
            Some(c) => {
                if !is_skipped(skips, c) {
                    return Some(c);
                }
            },
        }
        k = k + 1;
    }
    None
}

/// The first occurrence of the wall-clock time `t` not before `now`: today unless it has
/// already passed, else tomorrow.
pub fn first_occurrence_of(now: DateTime, t: Time) -> (r: Option<DateTime>)
    requires
        now.wf(),
        t.wf(),
    ensures
        r == first_occurrence(now, t),
        r matches Some(n) ==> n.wf(),
{
    let today = DateTime { date: now.date, time: t, offset_seconds: now.offset_seconds };
    if now.time.is_on_or_before(&t) {
        Some(today)
    } else {
        today.checked_add_seconds(SECONDS_PER_DAY)
    }
}

/// The next daily occurrence after `next`: the same wall-clock time one day later.
pub fn advance_one_day(next: DateTime) -> (r: Option<DateTime>)
    requires
        next.wf(),
    ensures
        r is Some <==> local_seconds_in_range(next.local_seconds() + SECONDS_PER_DAY),
        r matches Some(n) ==> n == shifted(next, SECONDS_PER_DAY as int) && n.wf(),
{
    next.checked_add_seconds(SECONDS_PER_DAY)
}

/// Whole seconds from `now` until `target`, rounded toward zero, and zero where `target`
/// is not later.
pub fn seconds_until(now: DateTime, target: DateTime) -> (r: u64)
    requires
        now.wf(),
        target.wf(),
    ensures
        r == whole_seconds_until(now, target),
{
    let a = target.unix_timestamp();
    let b = now.unix_timestamp();
    let d: i64 = a - b;
    let na = target.time.nanosecond as i64;
    let nb = now.time.nanosecond as i64;
    proof {
        let dn = d * 1_000_000_000 + na - nb;
        assert(dn == (target.instant_seconds() - now.instant_seconds()) * 1_000_000_000
            + target.time.nanosecond - now.time.nanosecond);
        if d < 0 {
            assert(dn <= 0) by (nonlinear_arith)
                requires
                    d < 0,
                    dn == d * 1_000_000_000 + na - nb,
                    0 <= na < 1_000_000_000,
                    0 <= nb < 1_000_000_000,
            ;
        } else if d > 0 {
            assert(dn > 0 && dn / 1_000_000_000 == if na >= nb { d as int } else { d - 1 })
                by (nonlinear_arith)
                requires
                    d > 0,
                    dn == d * 1_000_000_000 + na - nb,
                    0 <= na < 1_000_000_000,
                    0 <= nb < 1_000_000_000,
            ;
        } else {
            assert(dn <= 0 || dn / 1_000_000_000 == 0) by (nonlinear_arith)
                requires
                    d == 0,
                    dn == d * 1_000_000_000 + na - nb,
                    0 <= na < 1_000_000_000,
                    0 <= nb < 1_000_000_000,
            ;
        }
    }
    if d <= 0 {
        0
    } else if na >= nb {
        d as u64
    } else {
        (d - 1) as u64
    }
}

/// What a driver of the one-shot instant `target` does, having read `now`: a skip at once
/// where `target` is not later than `now` or a rule skips it, else a sleep until it.
pub fn plan_once(target: DateTime, skips: &Option<Vec<Skip>>, now: DateTime) -> (r: OncePlan)
    requires
        target.wf(),
        now.wf(),
        skips_wf(*skips),
    ensures
        r == Task::once_plan(target, *skips, now),
{
    if !now.is_before(&target) || is_skipped(skips, target) {
        OncePlan::SkipNow
    } else {
        OncePlan::FireAfter(seconds_until(now, target))
    }
}

/// A schedule with a rule that lists all seven weekdays skips at every valid moment it comes
/// due, and never fires.
pub proof fn lemma_every_weekday_rule_always_skips(task: Task, i: int, at: DateTime)
    requires
        at.wf(),
        task.skip_rules() is Some,
        0 <= i < task.skip_rules()->Some_0@.len(),
        task.skip_rules()->Some_0@[i]@ == SkipModel::Day(seq![1u8, 2, 3, 4, 5, 6, 7]),
    ensures
        task.notice_for(at) == Notice::OnSkip,
{
    let list = task.skip_rules()->Some_0;
    let rule = list@[i];
    let w = at.date.weekday();
    assert(1 <= w <= 7);
    if let Skip::Day(days) = rule {
        assert(days@ == seq![1u8, 2, 3, 4, 5, 6, 7]);
        assert(days@[w - 1] == w);
    }
    assert(rule.spec_is_skip(at));
}

} // verus!
