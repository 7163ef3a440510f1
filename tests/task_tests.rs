use easy_schedule::{Date, DateTime, Scheduler, Skip, Task, Time};

fn hms(h: u8, m: u8, s: u8) -> Time {
    Time::from_hms(h, m, s).unwrap()
}

#[test]
fn test_task_parse_success() {
    let task = Task::parse("wait(10)").unwrap();
    assert_eq!(task, Task::Wait(10, None));

    let task = Task::parse("interval(30)").unwrap();
    assert_eq!(task, Task::Interval(30, None));

    let task = Task::parse("at(14:30)").unwrap();
    assert_eq!(task, Task::At(hms(14, 30, 0), None));
}

#[test]
fn test_task_parse_errors() {
    let result = Task::parse("invalid(123)");
    assert!(result.is_err());
    assert!(result.unwrap_err().contains("Unknown task type"));

    let result = Task::parse("wait(abc)");
    assert!(result.is_err());
    assert!(result.unwrap_err().contains("Invalid seconds value"));

    let result = Task::parse("at(25:70)");
    assert!(result.is_err());
    assert!(result.unwrap_err().contains("Invalid time format"));

    let result = Task::parse("wait 10");
    assert!(result.is_err());
    assert!(result.unwrap_err().contains("Invalid task format"));

    let result = Task::parse("wait(10");
    assert!(result.is_err());
    assert!(result.unwrap_err().contains("Missing closing parenthesis"));
}

#[test]
fn parse_error_messages_are_exact() {
    assert_eq!(
        Task::parse("invalid(123)").unwrap_err(),
        "Unknown task type 'invalid'. Supported types: wait, interval, at, once"
    );
    assert_eq!(Task::parse("wait(abc)").unwrap_err(), "Invalid seconds value 'abc' in wait(abc)");
    assert_eq!(
        Task::parse("interval(-1)").unwrap_err(),
        "Invalid seconds value '-1' in interval(-1)"
    );
    assert_eq!(
        Task::parse("at(25:70)").unwrap_err(),
        "Invalid time format '25:70' in at(25:70). Expected format: HH:MM"
    );
    assert_eq!(
        Task::parse(" wait 10 ").unwrap_err(),
        "Invalid task format: 'wait 10'. Expected format like 'wait(10)'"
    );
    assert_eq!(Task::parse("wait(10").unwrap_err(), "Missing closing parenthesis in: 'wait(10'");
    assert_eq!(
        Task::parse("once(soon)").unwrap_err(),
        "Invalid datetime format 'soon' in once(soon). Expected format: YYYY-MM-DD HH:MM:SS +HH"
    );
}

#[test]
fn test_task_partial_eq() {
    let wait1 = Task::Wait(10, None);
    let wait2 = Task::Wait(10, None);
    let wait3 = Task::Wait(20, None);
    let interval1 = Task::Interval(10, None);

    assert_eq!(wait1, wait2);
    assert_ne!(wait1, wait3);
    assert_ne!(wait1, interval1);
}

#[test]
fn test_task_partial_eq_with_skip() {
    let skip1 = Some(vec![Skip::Day(vec![1, 2])]);
    let skip2 = Some(vec![Skip::Day(vec![1, 2])]);
    let skip3 = Some(vec![Skip::Day(vec![3, 4])]);

    let wait1 = Task::Wait(10, skip1);
    let wait2 = Task::Wait(10, skip2);
    let wait3 = Task::Wait(10, skip3);
    let wait4 = Task::Wait(10, None);

    assert_eq!(wait1, wait2);
    assert_ne!(wait1, wait3);
    assert_ne!(wait1, wait4);
}

#[test]
fn test_task_clone() {
    let source = Task::Wait(10, Some(vec![Skip::Day(vec![1])]));
    let cloned = source.clone();

    assert_eq!(source, cloned);
}

#[test]
fn test_task_debug() {
    let task = Task::Wait(10, None);
    let debug_str = format!("{:?}", task);

    assert!(debug_str.contains("Wait"));
    assert!(debug_str.contains("10"));
}

#[test]
fn parse_once_descriptor() {
    let task = Task::parse("once(2024-01-01 10:00:00 +08)").unwrap();
    if let Task::Once(datetime, None) = task {
        assert_eq!(datetime.unix_timestamp(), 1704074400);
        assert_eq!(datetime.offset_seconds, 8 * 3600);
        assert_eq!(datetime.date, Date::new(2024, 1, 1).unwrap());
        assert_eq!(datetime.time, hms(10, 0, 0));
    } else {
        panic!("Expected Task::Once");
    }
}

#[test]
fn parse_rejects_malformed_descriptors() {
    assert!(Task::parse("once(2024-01-01 10:00)").is_err());
    assert!(Task::parse("wait()").is_err());
    assert!(Task::parse(")wait(").unwrap_err().contains("Invalid parentheses"));
    assert!(Task::parse("wait(18446744073709551616)").is_err());
    assert!(Task::parse("at(9:30)").is_err());
    assert!(Task::parse("at(24:00)").is_err());
}

#[test]
fn parse_accepts_spacing_and_bounds() {
    assert_eq!(Task::parse("  wait ( 7 )  ").unwrap(), Task::Wait(7, None));
    assert_eq!(
        Task::parse("wait(18446744073709551615)").unwrap(),
        Task::Wait(18446744073709551615, None)
    );
    assert_eq!(Task::parse("interval(+5)").unwrap(), Task::Interval(5, None));
    assert_eq!(Task::parse("at(23:59)").unwrap(), Task::At(hms(23, 59, 0), None));
    assert_eq!(Task::parse("wait(3, [])").unwrap(), Task::Wait(3, Some(vec![])));
}

#[test]
fn parse_skip_rules_of_each_kind() {
    let task = Task::parse("at(09:30, [date 2024-02-29, time 22:00..06:00, time 12:15, weekday 1])")
        .unwrap();
    let expected = Task::At(
        hms(9, 30, 0),
        Some(vec![
            Skip::Date(Date::new(2024, 2, 29).unwrap()),
            Skip::TimeRange(hms(22, 0, 0), hms(6, 0, 0)),
            Skip::Time(hms(12, 15, 0)),
            Skip::Day(vec![1]),
        ]),
    );
    assert_eq!(task, expected);
    assert!(Task::parse("wait(1, date 2023-02-29)").is_err());
    assert!(Task::parse("wait(1, weekday 0)").is_err());
    assert!(Task::parse("wait(1, weekday)").is_err());
    assert!(Task::parse("wait(1, weekday 1 2)").is_err());
}

#[test]
fn notice_follows_the_rules() {
    let all_days = Task::Interval(1, Some(vec![Skip::Day(vec![1, 2, 3, 4, 5, 6, 7])]));
    let plain = Task::Interval(1, None);
    let at = DateTime::new_utc(Date::new(2024, 12, 25).unwrap(), hms(10, 0, 0));
    assert_eq!(all_days.notice_at(at), easy_schedule::Notice::OnSkip);
    assert_eq!(plain.notice_at(at), easy_schedule::Notice::OnTime);
}

#[test]
fn scheduler_now_uses_its_offset() {
    let scheduler = Scheduler::with_timezone_minutes(330);
    assert_eq!(scheduler.timezone_minutes(), 330);
    assert_eq!(scheduler.now().offset_seconds, 330 * 60);
    assert_eq!(Scheduler::new().timezone_minutes(), 480);
    assert_eq!(Scheduler::with_timezone(5, 30).timezone_minutes(), 330);
    assert_eq!(Scheduler::with_timezone(-3, -30).timezone_minutes(), -210);
    assert_eq!(Scheduler::default().timezone_minutes(), 480);
}

#[test]
fn scheduler_now_falls_back_to_utc_for_an_offset_out_of_range() {
    let scheduler = Scheduler::with_timezone_minutes(32767);
    assert_eq!(scheduler.now().offset_seconds, 0);
    assert_eq!(Scheduler::with_timezone_minutes(-1559).now().offset_seconds, -1559 * 60);
}

#[test]
fn test_task_display() {
    let wait_task = Task::Wait(10, None);
    let interval_task = Task::Interval(30, None);
    let at_task = Task::At(hms(14, 30, 0), None);
    let once_task = Task::Once(Scheduler::new().now(), None);

    assert!(wait_task.to_string().starts_with("wait: 10"));
    assert!(interval_task.to_string().starts_with("interval: 30"));
    assert!(at_task.to_string().starts_with("at: 14:30:00"));
    assert!(once_task.to_string().starts_with("once:"));
}

#[test]
fn test_task_display_with_skip() {
    let skip = Some(vec![Skip::Day(vec![1, 2]), Skip::Time(hms(12, 0, 0))]);
    let wait_task = Task::Wait(10, skip);

    let display = wait_task.to_string();
    assert!(display.contains("wait: 10"));
    assert!(display.contains("day: [1, 2]"));
    assert!(display.contains("time: 12:00:00"));
}

#[test]
fn task_text_is_exact() {
    assert_eq!(Task::Wait(10, None).to_string(), "wait: 10 ");
    assert_eq!(
        Task::Interval(5, Some(vec![Skip::Day(vec![6]), Skip::Day(vec![7])])).to_string(),
        "interval: 5 day: [6], day: [7]"
    );
    assert_eq!(Task::At(hms(9, 5, 0), Some(vec![])).to_string(), "at: 9:05:00.0 ");
    let once = Task::parse("once(2024-01-01 10:00:00 +08)").unwrap();
    assert_eq!(once.to_string(), "once: 2024-01-01 10:00:00.0 +08:00:00 ");
    assert_eq!(Task::Wait(18446744073709551615, None).to_string(), "wait: 18446744073709551615 ");
}

#[test]
fn once_text_writes_a_negative_offset() {
    let at = DateTime::new_in_offset(Date::new(2024, 6, 1).unwrap(), hms(7, 0, 0), -(3 * 3600 + 30 * 60));
    assert_eq!(Task::Once(at, None).to_string(), "once: 2024-06-01 7:00:00.0 -03:30:00 ");
}
