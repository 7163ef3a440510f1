use easy_schedule::{Skip, Task};

#[test]
fn test_basic_tasks_without_skip() {
    let task = Task::parse("wait(10)").unwrap();
    assert!(matches!(task, Task::Wait(10, None)));

    let task = Task::parse("interval(5)").unwrap();
    assert!(matches!(task, Task::Interval(5, None)));

    let task = Task::parse("at(09:30)").unwrap();
    assert!(matches!(task, Task::At(_, None)));
}

#[test]
fn test_single_skip_conditions() {
    let task = Task::parse("wait(10, weekday 6)").unwrap();
    if let Task::Wait(10, Some(skips)) = task {
        assert_eq!(skips.len(), 1);
        assert!(matches!(skips[0], Skip::Day(ref days) if days == &vec![6]));
    } else {
        panic!("Expected Wait task with skip");
    }

    let task = Task::parse("interval(5, date 2024-12-25)").unwrap();
    if let Task::Interval(5, Some(skips)) = task {
        assert_eq!(skips.len(), 1);
        assert!(matches!(skips[0], Skip::Date(_)));
    } else {
        panic!("Expected Interval task with skip");
    }

    let task = Task::parse("at(09:30, time 12:00..13:00)").unwrap();
    if let Task::At(_, Some(skips)) = task {
        assert_eq!(skips.len(), 1);
        assert!(matches!(skips[0], Skip::TimeRange(_, _)));
    } else {
        panic!("Expected At task with skip");
    }
}

#[test]
fn test_multiple_skip_conditions() {
    let task = Task::parse("wait(10, [weekday 6, weekday 7])").unwrap();
    if let Task::Wait(10, Some(skips)) = task {
        assert_eq!(skips.len(), 2);
        assert!(matches!(skips[0], Skip::Day(ref days) if days == &vec![6]));
        assert!(matches!(skips[1], Skip::Day(ref days) if days == &vec![7]));
    } else {
        panic!("Expected Wait task with multiple skips");
    }

    let task = Task::parse("interval(5, [date 2024-12-25, time 12:00..13:00])").unwrap();
    if let Task::Interval(5, Some(skips)) = task {
        assert_eq!(skips.len(), 2);
        assert!(matches!(skips[0], Skip::Date(_)));
        assert!(matches!(skips[1], Skip::TimeRange(_, _)));
    } else {
        panic!("Expected Interval task with mixed skips");
    }
}

#[test]
fn test_error_cases() {
    assert!(Task::parse("wait(10, weekday 8)").is_err());
    assert!(Task::parse("wait(10, date 2024-13-01)").is_err());
    assert!(Task::parse("wait(10, time 25:00..26:00)").is_err());
    assert!(Task::parse("wait(10, [weekday 6, invalid 7])").is_err());
}

#[test]
fn parsed_list_equals_the_schedule_built_by_hand() {
    let parsed = Task::parse("wait(10, [weekday 6, weekday 7])").unwrap();
    let built = Task::Wait(10, Some(vec![Skip::Day(vec![6]), Skip::Day(vec![7])]));
    assert_eq!(parsed, built);
    assert_ne!(parsed, Task::Wait(10, Some(vec![Skip::Day(vec![6, 7])])));
}

#[test]
fn parse_error_messages_name_the_fault() {
    assert_eq!(
        Task::parse("wait(10, weekday 8)").unwrap_err(),
        "Weekday must be between 1-7, got: 8"
    );
    assert_eq!(Task::parse("wait(10, date 2024-13-01)").unwrap_err(), "Invalid month: 13");
    assert_eq!(Task::parse("wait(10, date 2023-02-29)").unwrap_err(), "Invalid date: 2023-2-29");
    assert_eq!(
        Task::parse("wait(10, time 25:00..26:00)").unwrap_err(),
        "Invalid start time: '25:00'"
    );
    assert_eq!(
        Task::parse("wait(10, time 12:00..26:00)").unwrap_err(),
        "Invalid end time: '26:00'"
    );
    assert_eq!(
        Task::parse("wait(10, [weekday 6, invalid 7])").unwrap_err(),
        "Unknown skip type: 'invalid'. Supported types: weekday, date, time"
    );
    assert_eq!(
        Task::parse("wait(10, weekday x)").unwrap_err(),
        "Invalid weekday number: 'x'"
    );
    assert_eq!(
        Task::parse("wait(10, date 2024-12)").unwrap_err(),
        "Invalid date format: '2024-12'. Expected 'YYYY-MM-DD'"
    );
    assert_eq!(Task::parse("wait(10, date y-12-01)").unwrap_err(), "Invalid year: 'y'");
    assert_eq!(Task::parse("wait(10, [weekday 6,  ])").unwrap(), Task::Wait(10, Some(vec![Skip::Day(vec![6])])));
    assert_eq!(Task::parse("wait(10, [ , ])").unwrap(), Task::Wait(10, Some(vec![])));
    assert_eq!(Task::parse("wait(10, time)").unwrap_err(), "Invalid time format: 'time'. Expected 'time HH:MM..HH:MM'");
    assert_eq!(Task::parse("wait(10, )").unwrap_err(), "Empty skip condition");
}

#[test]
fn test_parsing_display() {
    let tests = vec![
        "wait(10, weekday 6)",
        "interval(5, date 2024-12-25)",
        "at(09:30, time 12:00..13:00)",
        "wait(10, [weekday 6, weekday 7])",
    ];

    for test in tests {
        let task = Task::parse(test).unwrap();
        let display = task.to_string();
        println!("Parsed '{}' -> '{}'", test, display);
        assert!(!display.is_empty());
    }
}
