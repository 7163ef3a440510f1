use vstd::prelude::*;
use vstd::string::StringExecFns;

use crate::calendar::{Date, DateTime, Time};
use crate::skip::{Skip, SkipModel};
use crate::task::{skips_view, Task, TaskModel};

verus! {

/// The decimal digit for `d`, which is below ten.
pub open spec fn digit_char(d: int) -> char {
    if d == 0 {
        '0'
    } else if d == 1 {
        '1'
    } else if d == 2 {
        '2'
    } else if d == 3 {
        '3'
    } else if d == 4 {
        '4'
    } else if d == 5 {
        '5'
    } else if d == 6 {
        '6'
    } else if d == 7 {
        '7'
    } else if d == 8 {
        '8'
    } else {
        '9'
    }
}

/// `n` in decimal, without leading zeros.
pub open spec fn decimal(n: nat) -> Seq<char>
    decreases n,
{
    if n < 10 {
        seq![digit_char(n as int)]
    } else {
        decimal(n / 10) + seq![digit_char((n % 10) as int)]
    }
}

/// The last `width` decimal digits of `n`, with leading zeros.
pub open spec fn padded(n: nat, width: nat) -> Seq<char>
    decreases width,
{
    if width == 0 {
        Seq::empty()
    } else {
        padded(n / 10, (width - 1) as nat) + seq![digit_char((n % 10) as int)]
    }
}

/// The digits without their trailing zeros, keeping at least one digit.
pub open spec fn trimmed_fraction(digits: Seq<char>) -> Seq<char>
    decreases digits.len(),
{
    if digits.len() > 1 && digits.last() == '0' {
        trimmed_fraction(digits.drop_last())
    } else {
        digits
    }
}

/// How the `time` crate writes a date within its range: a `-` for years before year 0, the
/// year in four digits, then the month and the day in two, such as `2024-12-25`.
pub open spec fn date_display(d: Date) -> Seq<char> {
    let y = if d.year < 0 { -d.year } else { d.year as int };
    (if d.year < 0 { "-"@ } else { Seq::empty() }) + padded(y as nat, 4) + "-"@ + padded(
        d.month as nat,
        2,
    ) + "-"@ + padded(d.day as nat, 2)
}

/// How the `time` crate writes a time of day: the hour, the minute and second in two digits,
/// and the fraction of a second without trailing zeros, such as `9:05:00.0`.
pub open spec fn time_display(t: Time) -> Seq<char> {
    decimal(t.hour as nat) + ":"@ + padded(t.minute as nat, 2) + ":"@ + padded(t.second as nat, 2)
        + "."@ + trimmed_fraction(padded(t.nanosecond as nat, 9))
}

/// How the `time` crate writes an offset from UTC, such as `+08:00:00`.
pub open spec fn offset_display(o: int) -> Seq<char> {
    let a = if o < 0 { -o } else { o };
    (if o < 0 { "-"@ } else { "+"@ }) + padded((a / 3600) as nat, 2) + ":"@ + padded(
        ((a % 3600) / 60) as nat,
        2,
    ) + ":"@ + padded((a % 60) as nat, 2)
}

/// How the `time` crate writes an instant with its offset, such as
/// `2024-01-01 10:00:00.0 +08:00:00`.
pub open spec fn date_time_display(dt: DateTime) -> Seq<char> {
    date_display(dt.date) + " "@ + time_display(dt.time) + " "@ + offset_display(
        dt.offset_seconds as int,
    )
}

/// The pieces joined by `, `.
pub open spec fn joined(items: Seq<Seq<char>>) -> Seq<char>
    decreases items.len(),
{
    if items.len() == 0 {
        Seq::empty()
    } else if items.len() == 1 {
        items[0]
    } else {
        joined(items.drop_last()) + ", "@ + items.last()
    }
}

/// How a rule is written, such as `date: 2024-12-25` or `day: [6, 7]`.
pub open spec fn skip_text(k: SkipModel) -> Seq<char> {
    match k {
        SkipModel::Date(d) => "date: "@ + date_display(d),
        SkipModel::DateRange(a, b) => "date range: "@ + date_display(a) + " - "@ + date_display(b),
        SkipModel::Day(days) => "day: ["@ + joined(days.map_values(|d: u8| decimal(d as nat)))
            + "]"@,
        SkipModel::DayRange(a, b) => "day range: "@ + decimal(a as nat) + " - "@ + decimal(
            b as nat,
        ),
        SkipModel::Time(t) => "time: "@ + time_display(t),
        SkipModel::TimeRange(a, b) => "time range: "@ + time_display(a) + " - "@ + time_display(b),
        SkipModel::Never => "none"@,
    }
}

/// How a rule list is written: the rules joined by `, `; nothing where there is no list.
pub open spec fn rules_text(rules: Option<Seq<SkipModel>>) -> Seq<char> {
    match rules {
        Some(v) => joined(v.map_values(|k: SkipModel| skip_text(k))),
        None => Seq::empty(),
    }
}

/// How a schedule is written, such as `wait: 10 day: [6, 7]`.
pub open spec fn task_text(t: TaskModel) -> Seq<char> {
    match t {
        TaskModel::Wait(w, r) => "wait: "@ + decimal(w as nat) + " "@ + rules_text(r),
        TaskModel::Interval(p, r) => "interval: "@ + decimal(p as nat) + " "@ + rules_text(r),
        TaskModel::At(t, r) => "at: "@ + time_display(t) + " "@ + rules_text(r),
        TaskModel::Once(d, r) => "once: "@ + date_time_display(d) + " "@ + rules_text(r),
    }
}

/// Relies on the `Display` of time::Date (`Date::fmt_into_buffer`).
#[verifier::external_body]
fn format_date(d: &Date) -> (r: String)
    requires
        d.wf(),
    ensures
        r@ == date_display(*d),
{
    let month = time::Month::try_from(d.month).unwrap();
    time::Date::from_calendar_date(d.year, month, d.day).unwrap().to_string()
}

/// Relies on the `Display` of time::Time (`Time::fmt_into_buffer`).
#[verifier::external_body]
fn format_time(t: &Time) -> (r: String)
    requires
        t.wf(),
    ensures
        r@ == time_display(*t),
{
    time::Time::from_hms_nano(t.hour, t.minute, t.second, t.nanosecond).unwrap().to_string()
}

/// Relies on the `Display` of time::OffsetDateTime: the date and time, a space, the offset.
#[verifier::external_body]
fn format_date_time(dt: &DateTime) -> (r: String)
    requires
        dt.wf(),
    ensures
        r@ == date_time_display(*dt),
{
    let month = time::Month::try_from(dt.date.month).unwrap();
    let date = time::Date::from_calendar_date(dt.date.year, month, dt.date.day).unwrap();
    let t = dt.time;
    let time = time::Time::from_hms_nano(t.hour, t.minute, t.second, t.nanosecond).unwrap();
    let offset = time::UtcOffset::from_whole_seconds(dt.offset_seconds).unwrap();
    time::OffsetDateTime::new_in_offset(date, time, offset).to_string()
}

/// The digit for `d`.
fn digit_str(d: u64) -> (r: &'static str)
    requires
        d < 10,
    ensures
        r@ == seq![digit_char(d as int)],
{
    if d == 0 {
        proof {
            reveal_strlit("0");
        }
        "0"
    } else if d == 1 {
        proof {
            reveal_strlit("1");
        }
        "1"
    } else if d == 2 {
        proof {
            reveal_strlit("2");
        }
        "2"
    } else if d == 3 {
        proof {
            reveal_strlit("3");
        }
        "3"
    } else if d == 4 {
        proof {
            reveal_strlit("4");
        }
        "4"
    } else if d == 5 {
        proof {
            reveal_strlit("5");
        }
        "5"
    } else if d == 6 {
        proof {
            reveal_strlit("6");
        }
        "6"
    } else if d == 7 {
        proof {
            reveal_strlit("7");
        }
        "7"
    } else if d == 8 {
        proof {
            reveal_strlit("8");
        }
        "8"
    } else {
        proof {
            reveal_strlit("9");
        }
        "9"
    }
}

/// `n` in decimal.
pub fn decimal_string(n: u64) -> (r: String)
    ensures
        r@ == decimal(n as nat),
    decreases n,
{
    if n < 10 {
        String::from_str(digit_str(n))
    } else {
        let mut s = decimal_string(n / 10);
        s.append(digit_str(n % 10));
        s
    }
}

/// The weekday numbers joined by `, `.
fn join_days(v: &Vec<u8>) -> (r: String)
    ensures
        r@ == joined(v@.map_values(|d: u8| decimal(d as nat))),
{
    let mut out = String::new();
    let mut i: usize = 0;
    while i < v.len()
        invariant
            0 <= i <= v@.len(),
            out@ == joined(v@.subrange(0, i as int).map_values(|d: u8| decimal(d as nat))),
        decreases v@.len() - i,
    {
        let piece = decimal_string(v[i] as u64);
        let ghost before = v@.subrange(0, i as int).map_values(|d: u8| decimal(d as nat));
        let ghost after = v@.subrange(0, i + 1).map_values(|d: u8| decimal(d as nat));
        assert(after.drop_last() =~= before);
        if i > 0 {
            out.append(", ");
        }
        out.append(piece.as_str());
        proof {
            if i == 0 {
                assert(after.len() == 1);
            }
        }
        i = i + 1;
    }
    assert(v@.subrange(0, v@.len() as int) =~= v@);
    out
}

/// The rules written out and joined by `, `.
fn join_rules(list: &Vec<Skip>) -> (r: String)
    requires
        forall|j: int| 0 <= j < list@.len() ==> (#[trigger] list@[j]).wf(),
    ensures
        r@ == joined(list@.map_values(|k: Skip| k@).map_values(|k: SkipModel| skip_text(k))),
{
    let ghost texts = list@.map_values(|k: Skip| k@).map_values(|k: SkipModel| skip_text(k));
    let mut out = String::new();
    let mut i: usize = 0;
    while i < list.len()
        invariant
            0 <= i <= list@.len(),
            forall|j: int| 0 <= j < list@.len() ==> (#[trigger] list@[j]).wf(),
            texts == list@.map_values(|k: Skip| k@).map_values(|k: SkipModel| skip_text(k)),
            out@ == joined(texts.subrange(0, i as int)),
        decreases list@.len() - i,
    {
        let piece = list[i].to_string();
        let ghost after = texts.subrange(0, i + 1);
        assert(after.drop_last() =~= texts.subrange(0, i as int));
        if i > 0 {
            out.append(", ");
        }
        out.append(piece.as_str());
        proof {
            if i == 0 {
                assert(after.len() == 1);
            }
        }
        i = i + 1;
    }
    assert(texts.subrange(0, list@.len() as int) =~= texts);
    out
}

impl Skip {
    /// The rule written out, such as `date: 2024-12-25`, `day: [6, 7]` or `none`.
    pub fn to_string(&self) -> (r: String)
        requires
            self.wf(),
        ensures
            r@ == skip_text(self@),
    {
        match self {
            Skip::Date(d) => String::from_str("date: ").concat(format_date(d).as_str()),
            Skip::DateRange(a, b) => String::from_str("date range: ").concat(
                format_date(a).as_str(),
            ).concat(" - ").concat(format_date(b).as_str()),
            Skip::Day(days) => String::from_str("day: [").concat(join_days(days).as_str()).concat(
                "]",
            ),
            Skip::DayRange(a, b) => String::from_str("day range: ").concat(
                decimal_string(*a as u64).as_str(),
            ).concat(" - ").concat(decimal_string(*b as u64).as_str()),
            Skip::Time(t) => String::from_str("time: ").concat(format_time(t).as_str()),
            Skip::TimeRange(a, b) => String::from_str("time range: ").concat(
                format_time(a).as_str(),
            ).concat(" - ").concat(format_time(b).as_str()),
            Skip::Never => String::from_str("none"),
        }
    }
}

/// The rule list written out.
fn rules_string(rules: &Option<Vec<Skip>>) -> (r: String)
    requires
        crate::skip::skips_wf(*rules),
    ensures
        r@ == rules_text(skips_view(*rules)),
{
    match rules {
        Some(list) => join_rules(list),
        None => String::new(),
    }
}

impl Task {
    /// The schedule written out: its kind, its value and its rules, such as
    /// `wait: 10 day: [6], day: [7]`.
    pub fn to_string(&self) -> (r: String)
        requires
            self.wf(),
        ensures
            r@ == task_text(self@),
    {
        match self {
            Task::Wait(w, rules) => String::from_str("wait: ").concat(
                decimal_string(*w).as_str(),
            ).concat(" ").concat(rules_string(rules).as_str()),
            Task::Interval(p, rules) => String::from_str("interval: ").concat(
                decimal_string(*p).as_str(),
            ).concat(" ").concat(rules_string(rules).as_str()),
            Task::At(t, rules) => String::from_str("at: ").concat(format_time(t).as_str()).concat(
                " ",
            ).concat(rules_string(rules).as_str()),
            Task::Once(d, rules) => String::from_str("once: ").concat(
                format_date_time(d).as_str(),
            ).concat(" ").concat(rules_string(rules).as_str()),
        }
    }
}

} // verus!
