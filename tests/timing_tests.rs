use easy_schedule::task::{advance_one_day, first_occurrence_of, plan_once, seconds_until};
use easy_schedule::{Date, DateTime, OncePlan, Skip, Task, Time};

fn local(y: i32, mo: u8, d: u8, h: u8, mi: u8, s: u8, offset: i32) -> DateTime {
    DateTime::new_in_offset(Date::new(y, mo, d).unwrap(), Time::from_hms(h, mi, s).unwrap(), offset)
}

#[test]
fn once_in_the_past_is_skipped_at_once() {
    let now = local(2024, 12, 25, 10, 0, 0, 8 * 3600);
    let past = local(2024, 12, 25, 9, 59, 50, 8 * 3600);
    assert_eq!(plan_once(past, &None, now), OncePlan::SkipNow);
    assert_eq!(plan_once(now, &None, now), OncePlan::SkipNow);
}

#[test]
fn once_two_seconds_ahead_fires_after_two_seconds() {
    let now = local(2024, 12, 25, 10, 0, 0, 8 * 3600);
    let ahead = local(2024, 12, 25, 10, 0, 2, 8 * 3600);
    assert_eq!(plan_once(ahead, &None, now), OncePlan::FireAfter(2));
    // The same instant written at UTC.
    let ahead_utc = local(2024, 12, 25, 2, 0, 2, 0);
    assert_eq!(plan_once(ahead_utc, &None, now), OncePlan::FireAfter(2));
}

#[test]
fn once_on_a_skipped_day_is_skipped_without_sleeping() {
    let now = local(2024, 12, 20, 10, 0, 0, 0);
    let saturday = local(2024, 12, 21, 10, 0, 0, 0);
    let rules = Some(vec![Skip::Day(vec![6])]);
    assert_eq!(plan_once(saturday, &rules, now), OncePlan::SkipNow);
}

#[test]
fn seconds_until_rounds_toward_zero() {
    let now = local(2024, 12, 25, 10, 0, 0, 0);
    let later = local(2024, 12, 26, 10, 0, 0, 0);
    assert_eq!(seconds_until(now, later), 86400);
    assert_eq!(seconds_until(later, now), 0);
    let mut half = later;
    half.time.nanosecond = 500_000_000;
    assert_eq!(seconds_until(half, local(2024, 12, 26, 10, 0, 3, 0)), 2);
}

#[test]
fn first_occurrence_today_or_tomorrow() {
    let now = local(2024, 12, 31, 14, 30, 0, 3600);
    let later_today = Time::from_hms(15, 0, 0).unwrap();
    let same_time = Time::from_hms(14, 30, 0).unwrap();
    let t = first_occurrence_of(now, later_today).unwrap();
    assert_eq!(t.date, now.date);
    assert_eq!(t.time, later_today);
    let earlier = Time::from_hms(14, 29, 59).unwrap();
    let t = first_occurrence_of(now, earlier).unwrap();
    assert_eq!(t.date, Date::new(2025, 1, 1).unwrap());
    assert_eq!(t.time, earlier);
    assert_eq!(t.offset_seconds, 3600);
    let t = first_occurrence_of(now, same_time).unwrap();
    assert_eq!(t, now);
}

#[test]
fn first_occurrence_at_the_exact_time_is_today() {
    let now = local(2024, 12, 25, 14, 30, 0, 8 * 3600);
    let at = Time::from_hms(14, 30, 0).unwrap();
    let t = first_occurrence_of(now, at).unwrap();
    assert_eq!(t.date, Date::new(2024, 12, 25).unwrap());
    assert_eq!(t.time, at);
    assert_eq!(seconds_until(now, t), 0);
}

#[test]
fn advancing_a_day_crosses_month_and_year_ends() {
    let leap = advance_one_day(local(2024, 2, 28, 6, 0, 0, 0)).unwrap();
    assert_eq!(leap.date, Date::new(2024, 2, 29).unwrap());
    let year_end = advance_one_day(local(2024, 12, 31, 6, 0, 0, 0)).unwrap();
    assert_eq!(year_end.date, Date::new(2025, 1, 1).unwrap());
    assert!(advance_one_day(local(9999, 12, 31, 6, 0, 0, 0)).is_none());
}

#[test]
fn next_run_of_a_daily_task_skips_rule_days() {
    // Friday 2024-12-20 at noon; weekends skipped: the next 09:00 that counts is Monday.
    let now = local(2024, 12, 20, 12, 0, 0, 0);
    let task = Task::At(Time::from_hms(9, 0, 0).unwrap(), Some(vec![Skip::DayRange(6, 7)]));
    let next = task.next_run_time(now).unwrap();
    assert_eq!(next.date, Date::new(2024, 12, 23).unwrap());
}

#[test]
fn next_run_of_an_interval_passes_a_skipped_window() {
    let now = local(2024, 12, 25, 11, 59, 0, 0);
    let task = Task::Interval(
        60,
        Some(vec![Skip::TimeRange(Time::from_hms(12, 0, 0).unwrap(), Time::from_hms(12, 30, 0).unwrap())]),
    );
    let next = task.next_run_time(now).unwrap();
    assert_eq!(next.time, Time::from_hms(12, 31, 0).unwrap());
    let wait = Task::Wait(30, None);
    assert_eq!(wait.next_run_time(now).unwrap().time, Time::from_hms(11, 59, 30).unwrap());
}
