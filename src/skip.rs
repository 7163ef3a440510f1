use vstd::prelude::*;

use crate::calendar::{Date, DateTime, Time};

verus! {

/// A rule that, when it matches the instant a task would fire, turns the firing into a skip.
#[derive(Clone, Debug)]
pub enum Skip {
    /// Matches on this date.
    Date(Date),
    /// Matches on every date from the first to the second, both included.
    DateRange(Date, Date),
    /// Matches on each listed weekday (1 is Monday, 7 is Sunday).
    Day(Vec<u8>),
    /// Matches on every weekday from the first to the second, both included.
    DayRange(usize, usize),
    /// Matches at exactly this wall-clock time.
    Time(Time),
    /// Matches from the first time to the second, both included; where the first comes later
    /// in the day than the second, the range runs across midnight.
    TimeRange(Time, Time),
    /// Never matches.
    Never,
}

/// The value a rule stands for, with its weekdays as a sequence.
pub ghost enum SkipModel {
    Date(Date),
    DateRange(Date, Date),
    Day(Seq<u8>),
    DayRange(usize, usize),
    Time(Time),
    TimeRange(Time, Time),
    Never,
}

impl View for Skip {
    type V = SkipModel;

    open spec fn view(&self) -> SkipModel {
        match self {
            Skip::Date(d) => SkipModel::Date(*d),
            Skip::DateRange(a, b) => SkipModel::DateRange(*a, *b),
            Skip::Day(days) => SkipModel::Day(days@),
            Skip::DayRange(a, b) => SkipModel::DayRange(*a, *b),
            Skip::Time(t) => SkipModel::Time(*t),
            Skip::TimeRange(a, b) => SkipModel::TimeRange(*a, *b),
            Skip::Never => SkipModel::Never,
        }
    }
}

/// Whether a wall-clock time lies in the range from `start` to `end`, which runs across
/// midnight where `start` comes later in the day than `end`.
pub open spec fn time_in_range(t: Time, start: Time, end: Time) -> bool {
    if start.nanos_of_day() <= end.nanos_of_day() {
        start.nanos_of_day() <= t.nanos_of_day() && t.nanos_of_day() <= end.nanos_of_day()
    } else {
        t.nanos_of_day() >= start.nanos_of_day() || t.nanos_of_day() <= end.nanos_of_day()
    }
}

impl Skip {
    /// The dates and times the rule holds are valid, and its weekdays are 1 to 7.
    pub open spec fn wf(self) -> bool {
        match self {
            Skip::Date(d) => d.wf(),
            Skip::DateRange(s, e) => s.wf() && e.wf(),
            Skip::Day(days) => forall|i: int| 0 <= i < days@.len() ==> 1 <= #[trigger] days@[i] <= 7,
            Skip::DayRange(s, e) => 1 <= s <= 7 && 1 <= e <= 7,
            Skip::Time(t) => t.wf(),
            Skip::TimeRange(s, e) => s.wf() && e.wf(),
            Skip::Never => true,
        }
    }

    /// Whether the rule matches a moment with this local date, time and weekday.
    pub open spec fn matches_at(self, date: Date, time: Time, weekday: int) -> bool {
        match self {
            Skip::Date(d) => date == d,
            Skip::DateRange(s, e) => s.order_key() <= date.order_key() && date.order_key()
                <= e.order_key(),
            Skip::Day(days) => exists|i: int| 0 <= i < days@.len() && days@[i] == weekday,
            Skip::DayRange(s, e) => s <= weekday && weekday <= e,
            Skip::Time(t) => time == t,
            Skip::TimeRange(s, e) => time_in_range(time, s, e),
            Skip::Never => false,
        }
    }

    /// Whether the rule matches the instant `t`, read on `t`'s own clock.
    pub open spec fn spec_is_skip(self, t: DateTime) -> bool {
        self.matches_at(t.date, t.time, t.date.weekday())
    }

    /// Whether the dates and times the rule holds are valid and its weekdays are 1 to 7.
    pub fn is_valid(&self) -> (r: bool)
        ensures
            r == self.wf(),
    {
        match self {
            Skip::Date(d) => d.is_valid(),
            Skip::DateRange(s, e) => s.is_valid() && e.is_valid(),
            Skip::Day(days) => weekdays_valid(days),
            Skip::DayRange(s, e) => 1 <= *s && *s <= 7 && 1 <= *e && *e <= 7,
            Skip::Time(t) => t.is_valid(),
            Skip::TimeRange(s, e) => s.is_valid() && e.is_valid(),
            Skip::Never => true,
        }
    }

    /// Whether the rule matches the instant `t`, read on `t`'s own clock.
    pub fn is_skip(&self, t: DateTime) -> (r: bool)
        requires
            self.wf(),
            t.wf(),
        ensures
            r == self.spec_is_skip(t),
    {
        let weekday = t.date.weekday_number();
        self.matches_weekday(t, weekday)
    }

    /// Whether the rule matches a moment with `t`'s date and time, on the given weekday.
    pub fn matches_weekday(&self, t: DateTime, weekday: u8) -> (r: bool)
        requires
            self.wf(),
            t.wf(),
        ensures
            r == self.matches_at(t.date, t.time, weekday as int),
    {
        match self {
            Skip::Date(d) => t.date == *d,
            Skip::DateRange(s, e) => s.is_on_or_before(&t.date) && t.date.is_on_or_before(e),
            Skip::Day(days) => contains_byte(days, weekday),
            Skip::DayRange(s, e) => *s <= weekday as usize && weekday as usize <= *e,
            Skip::Time(st) => t.time == *st,
            Skip::TimeRange(s, e) => {
                if s.is_on_or_before(e) {
                    s.is_on_or_before(&t.time) && t.time.is_on_or_before(e)
                } else {
                    s.is_on_or_before(&t.time) || t.time.is_on_or_before(e)
                }
            },
            Skip::Never => false,
        }
    }
}

impl Default for Skip {
    fn default() -> (r: Skip)
        ensures
            r == Skip::Never,
    {
        Skip::Never
    }
}

impl PartialEq for Skip {
    fn eq(&self, other: &Skip) -> (r: bool) {
        match (self, other) {
            (Skip::Date(a), Skip::Date(b)) => *a == *b,
            (Skip::DateRange(a, b), Skip::DateRange(c, d)) => *a == *c && *b == *d,
            (Skip::Day(a), Skip::Day(b)) => bytes_equal(a, b),
            (Skip::DayRange(a, b), Skip::DayRange(c, d)) => *a == *c && *b == *d,
            (Skip::Time(a), Skip::Time(b)) => *a == *b,
            (Skip::TimeRange(a, b), Skip::TimeRange(c, d)) => *a == *c && *b == *d,
            (Skip::Never, Skip::Never) => true,
            _ => false,
        }
    }
}

impl vstd::std_specs::cmp::PartialEqSpecImpl for Skip {
    open spec fn obeys_eq_spec() -> bool {
        true
    }

    open spec fn eq_spec(&self, other: &Skip) -> bool {
        self@ == other@
    }
}

/// Whether two byte vectors hold the same bytes in the same order.
pub fn bytes_equal(a: &Vec<u8>, b: &Vec<u8>) -> (r: bool)
    ensures
        r == (a@ == b@),
{
    if a.len() != b.len() {
        return false;
    }
    let mut i: usize = 0;
    while i < a.len()
        invariant
            a@.len() == b@.len(),
            0 <= i <= a@.len(),
            forall|j: int| 0 <= j < i ==> a@[j] == b@[j],
        decreases a@.len() - i,
    {
        if a[i] != b[i] {
            return false;
        }
        i = i + 1;
    }
    assert(a@ =~= b@);
    true
}

/// Whether some rule of the list matches `t`; an absent list matches nothing.
pub open spec fn skipped_by(skips: Option<Vec<Skip>>, t: DateTime) -> bool {
    match skips {
        Some(list) => exists|i: int| 0 <= i < list@.len() && (#[trigger] list@[i]).spec_is_skip(t),
        None => false,
    }
}

/// Every rule of the list is valid.
pub open spec fn skips_wf(skips: Option<Vec<Skip>>) -> bool {
    match skips {
        Some(list) => forall|i: int| 0 <= i < list@.len() ==> (#[trigger] list@[i]).wf(),
        None => true,
    }
}

/// Whether every rule of the list is valid.
pub fn skips_valid(skips: &Option<Vec<Skip>>) -> (r: bool)
    ensures
        r == skips_wf(*skips),
{
    match skips {
        Some(list) => all_rules_valid(list),
        None => true,
    }
}

fn all_rules_valid(list: &Vec<Skip>) -> (r: bool)
    ensures
        r == forall|i: int| 0 <= i < list@.len() ==> (#[trigger] list@[i]).wf(),
{
    let mut i: usize = 0;
    while i < list.len()
        invariant
            0 <= i <= list@.len(),
            forall|j: int| 0 <= j < i ==> (#[trigger] list@[j]).wf(),
        decreases list@.len() - i,
    {
        if !list[i].is_valid() {
            assert(!list@[i as int].wf());
            return false;
        }
        i = i + 1;
    }
    true
}

/// Whether some rule of the list matches `t`.
pub fn is_skipped(skips: &Option<Vec<Skip>>, t: DateTime) -> (r: bool)
    requires
        skips_wf(*skips),
        t.wf(),
    ensures
        r == skipped_by(*skips, t),
{
    match skips {
        Some(list) => any_rule_matches(list, t),
        None => false,
    }
}

/// Whether some rule of the list matches `t`.
fn any_rule_matches(list: &Vec<Skip>, t: DateTime) -> (r: bool)
    requires
        forall|j: int| 0 <= j < list@.len() ==> (#[trigger] list@[j]).wf(),
        t.wf(),
    ensures
        r == exists|i: int| 0 <= i < list@.len() && (#[trigger] list@[i]).spec_is_skip(t),
{
    let mut i: usize = 0;
    while i < list.len()
        invariant
            0 <= i <= list@.len(),
            t.wf(),
            forall|j: int| 0 <= j < list@.len() ==> (#[trigger] list@[j]).wf(),
            forall|j: int| 0 <= j < i ==> !(#[trigger] list@[j]).spec_is_skip(t),
        decreases list@.len() - i,
    {
        if list[i].is_skip(t) {
            assert(list@[i as int].spec_is_skip(t));
            return true;
        }
        i = i + 1;
    }
    false
}

/// Whether every number of `v` is a weekday, 1 to 7.
fn weekdays_valid(v: &Vec<u8>) -> (r: bool)
    ensures
        r == forall|i: int| 0 <= i < v@.len() ==> 1 <= #[trigger] v@[i] <= 7,
{
    let mut i: usize = 0;
    while i < v.len()
        invariant
            0 <= i <= v@.len(),
            forall|j: int| 0 <= j < i ==> 1 <= #[trigger] v@[j] <= 7,
        decreases v@.len() - i,
    {
        if v[i] < 1 || v[i] > 7 {
            assert(!(1 <= v@[i as int] <= 7));
            return false;
        }
        i = i + 1;
    }
    true
}

/// Whether `x` occurs in `v`.
fn contains_byte(v: &Vec<u8>, x: u8) -> (r: bool)
    ensures
        r == exists|i: int| 0 <= i < v@.len() && v@[i] == x,
{
    let mut i: usize = 0;
    while i < v.len()
        invariant
            0 <= i <= v@.len(),
            forall|j: int| 0 <= j < i ==> v@[j] != x,
        decreases v@.len() - i,
    {
        if v[i] == x {
            assert(0 <= i < v@.len() && v@[i as int] == x);
            return true;
        }
        i = i + 1;
    }
    false
}

} // verus!
