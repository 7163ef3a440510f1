use easy_schedule::driver::{Action, Driver, Event, Phase};
use easy_schedule::{Date, DateTime, Notice, Skip, Task, Time};

fn local(y: i32, mo: u8, d: u8, h: u8, mi: u8, s: u8) -> DateTime {
    DateTime::new_in_offset(Date::new(y, mo, d).unwrap(), Time::from_hms(h, mi, s).unwrap(), 8 * 3600)
}

#[test]
fn once_in_the_past_is_told_one_skip_and_no_firing() {
    let now = local(2024, 12, 25, 10, 0, 0);
    let past = local(2024, 12, 25, 9, 59, 50);
    let (mut driver, action) = Driver::start(Task::Once(past, None), now);
    assert_eq!(action, Action::Notify(Notice::OnSkip));
    assert_eq!(driver.step(Event::Notified(now)), Action::Finish);
    assert_eq!(driver.phase, Phase::Finished);
    assert_eq!(driver.step(Event::Woke(now)), Action::Finish);
}

#[test]
fn once_two_seconds_ahead_fires_once() {
    let now = local(2024, 12, 25, 10, 0, 0);
    let ahead = local(2024, 12, 25, 10, 0, 2);
    let (mut driver, action) = Driver::start(Task::Once(ahead, None), now);
    assert_eq!(action, Action::Sleep(2));
    assert_eq!(driver.step(Event::Woke(ahead)), Action::Notify(Notice::OnTime));
    assert_eq!(driver.step(Event::Notified(ahead)), Action::Finish);
}

#[test]
fn once_cancelled_while_asleep_never_fires() {
    let now = local(2024, 12, 25, 10, 0, 0);
    let ahead = local(2024, 12, 25, 10, 0, 2);
    let (mut driver, _) = Driver::start(Task::Once(ahead, None), now);
    assert_eq!(driver.step(Event::Cancelled), Action::Finish);
    assert_eq!(driver.step(Event::Woke(ahead)), Action::Finish);
}

#[test]
fn interval_repeats_until_cancelled() {
    let now = local(2024, 12, 25, 10, 0, 0);
    let (mut driver, action) = Driver::start(Task::Interval(1, None), now);
    assert_eq!(action, Action::Sleep(1));
    for _ in 0..3 {
        assert_eq!(driver.step(Event::Woke(now)), Action::Notify(Notice::OnTime));
        assert_eq!(driver.step(Event::Notified(now)), Action::Sleep(1));
    }
    assert_eq!(driver.step(Event::Cancelled), Action::Finish);
    for _ in 0..3 {
        assert_eq!(driver.step(Event::Woke(now)), Action::Finish);
        assert_eq!(driver.step(Event::Notified(now)), Action::Finish);
    }
}

#[test]
fn interval_skipping_every_weekday_never_fires() {
    let rules = Some(vec![Skip::Day(vec![1, 2, 3, 4, 5, 6, 7])]);
    let (mut driver, _) = Driver::start(Task::Interval(1, rules), local(2024, 12, 25, 10, 0, 0));
    for day in 20..27 {
        let now = local(2024, 12, day, 10, 0, 0);
        assert_eq!(driver.step(Event::Woke(now)), Action::Notify(Notice::OnSkip));
        assert_eq!(driver.step(Event::Notified(now)), Action::Sleep(1));
    }
}

#[test]
fn wait_fires_once_judged_at_the_wake() {
    let now = local(2024, 12, 20, 23, 59, 59);
    let rules = Some(vec![Skip::Day(vec![6])]);
    let (mut driver, action) = Driver::start(Task::Wait(1, rules), now);
    assert_eq!(action, Action::Sleep(1));
    // Woken on Saturday: skipped.
    let woke = local(2024, 12, 21, 0, 0, 0);
    assert_eq!(driver.step(Event::Woke(woke)), Action::Notify(Notice::OnSkip));
    assert_eq!(driver.step(Event::Notified(woke)), Action::Finish);
}

#[test]
fn daily_time_is_judged_at_its_occurrence_and_moves_a_day() {
    // Friday noon; 09:00 every day, weekends skipped.
    let now = local(2024, 12, 20, 12, 0, 0);
    let at = Time::from_hms(9, 0, 0).unwrap();
    let (mut driver, action) = Driver::start(Task::At(at, Some(vec![Skip::DayRange(6, 7)])), now);
    assert_eq!(action, Action::Sleep(21 * 3600));
    assert_eq!(driver.target.unwrap(), local(2024, 12, 21, 9, 0, 0));
    // Saturday's occurrence is a skip even if the wake comes late on Monday.
    let late = local(2024, 12, 23, 9, 30, 0);
    assert_eq!(driver.step(Event::Woke(late)), Action::Notify(Notice::OnSkip));
    // The target moves one day; the sleep is measured from the reading after the notice.
    assert_eq!(driver.step(Event::Notified(local(2024, 12, 21, 9, 0, 1))), Action::Sleep(86399));
    assert_eq!(driver.target.unwrap(), local(2024, 12, 22, 9, 0, 0));
    assert_eq!(driver.step(Event::Woke(late)), Action::Notify(Notice::OnSkip));
    assert_eq!(driver.step(Event::Notified(late)), Action::Sleep(0));
    assert_eq!(driver.target.unwrap(), local(2024, 12, 23, 9, 0, 0));
    assert_eq!(driver.step(Event::Woke(late)), Action::Notify(Notice::OnTime));
}

#[test]
fn daily_time_still_ahead_today_is_today() {
    let now = local(2024, 12, 20, 8, 59, 0);
    let (driver, action) = Driver::start(Task::At(Time::from_hms(9, 0, 0).unwrap(), None), now);
    assert_eq!(action, Action::Sleep(60));
    assert_eq!(driver.target.unwrap(), local(2024, 12, 20, 9, 0, 0));
}

#[test]
fn events_out_of_turn_finish_the_driver() {
    let now = local(2024, 12, 25, 10, 0, 0);
    let (mut driver, _) = Driver::start(Task::Interval(5, None), now);
    assert_eq!(driver.step(Event::Notified(now)), Action::Finish);
    assert_eq!(driver.phase, Phase::Finished);
}

#[test]
fn daily_time_equal_to_now_fires_today() {
    let now = local(2024, 12, 25, 14, 30, 0);
    let at = Time::from_hms(14, 30, 0).unwrap();
    let (mut driver, action) = Driver::start(Task::At(at, None), now);
    assert_eq!(action, Action::Sleep(0));
    assert_eq!(driver.target.unwrap(), now);
    assert_eq!(driver.step(Event::Woke(now)), Action::Notify(Notice::OnTime));
}
