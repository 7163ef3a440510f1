use easy_schedule::{DateTime, Scheduler, Skip, Task, Time};

fn unix(dt: &DateTime) -> i64 {
    dt.unix_timestamp()
}

#[test]
fn test_scheduler_creation() {
    let scheduler = Scheduler::new();
    assert!(!scheduler.get_cancel().is_cancelled());

    let scheduler_with_timezone = Scheduler::with_timezone(5, 30);
    assert!(!scheduler_with_timezone.get_cancel().is_cancelled());

    let scheduler_with_minutes = Scheduler::with_timezone_minutes(330);
    assert!(!scheduler_with_minutes.get_cancel().is_cancelled());
}

#[test]
fn test_scheduler_stop() {
    let scheduler = Scheduler::new();
    assert!(!scheduler.get_cancel().is_cancelled());

    scheduler.stop();
    assert!(scheduler.get_cancel().is_cancelled());
}

#[test]
fn stop_twice_leaves_the_signal_cancelled() {
    let scheduler = Scheduler::new();
    let token = scheduler.get_cancel();
    scheduler.stop();
    scheduler.stop();
    assert!(token.is_cancelled());
    assert!(scheduler.get_cancel().is_cancelled());
}

#[test]
fn test_get_next_run_time_wait() {
    let scheduler = Scheduler::new();
    let next_time = scheduler.get_next_run_time(&Task::Wait(60, None));
    assert!(next_time.is_some());

    let now = scheduler.now();
    let diff = (unix(&next_time.unwrap()) - (unix(&now) + 60)).abs();
    assert!(diff < 2);
}

#[test]
fn test_get_next_run_time_interval() {
    let scheduler = Scheduler::new();
    let next_time = scheduler.get_next_run_time(&Task::Interval(30, None));
    assert!(next_time.is_some());

    let now = scheduler.now();
    let diff = (unix(&next_time.unwrap()) - (unix(&now) + 30)).abs();
    assert!(diff < 2);
}

#[test]
fn test_get_next_run_time_at() {
    let test_time = Time::from_hms(14, 30, 0).unwrap();
    let scheduler = Scheduler::new();
    let next_time = scheduler.get_next_run_time(&Task::At(test_time, None));
    assert!(next_time.is_some());

    let next = next_time.unwrap();
    assert_eq!(next.time, test_time);

    let now = scheduler.now();
    if next.date == now.date {
        assert!(now.is_before(&next));
    } else {
        let tomorrow = now.checked_add_seconds(86400).unwrap();
        assert_eq!(next.date, tomorrow.date);
    }
}

#[test]
fn test_get_next_run_time_once_future() {
    let scheduler = Scheduler::new();
    let future_time = scheduler.now().checked_add_seconds(120).unwrap();
    let next_time = scheduler.get_next_run_time(&Task::Once(future_time, None));
    assert!(next_time.is_some());
    assert_eq!(next_time.unwrap(), future_time);
}

#[test]
fn test_get_next_run_time_once_past() {
    let scheduler = Scheduler::new();
    let past_time = scheduler.now().checked_add_seconds(-60).unwrap();
    let next_time = scheduler.get_next_run_time(&Task::Once(past_time, None));
    assert!(next_time.is_none());
}

#[test]
fn test_get_next_run_time_with_skip() {
    let skip = Some(vec![Skip::Day(vec![1, 2, 3, 4, 5, 6, 7])]);
    let scheduler = Scheduler::new();
    let next_time = scheduler.get_next_run_time(&Task::Interval(5, skip));
    assert!(next_time.is_none());
}

#[test]
fn test_get_next_run_time_once_with_skip() {
    let scheduler = Scheduler::new();
    let future_time = scheduler.now().checked_add_seconds(60).unwrap();
    let skip = Some(vec![Skip::Day(vec![1, 2, 3, 4, 5, 6, 7])]);
    let next_time = scheduler.get_next_run_time(&Task::Once(future_time, skip));
    assert!(next_time.is_none());
}
