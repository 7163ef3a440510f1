use vstd::prelude::*;

use crate::calendar::{local_seconds_in_range, shifted, DateTime, SECONDS_PER_DAY};
use crate::skip::{Skip, SkipModel};
use crate::task::{
    advance_one_day, first_occurrence, first_occurrence_of, plan_once, seconds_until,
    whole_seconds_until, Notice, OncePlan, Task,
};

verus! {

/// Where the driver of one task stands.
#[derive(Clone, Copy, Debug, PartialEq, Eq, Structural)]
pub enum Phase {
    /// Waiting for a timer to run out.
    Asleep,
    /// Waiting for the task to return from a notification.
    Notifying,
    /// Done; nothing more happens.
    Finished,
}

/// What happened to a driver: each event carries the clock reading taken when it came.
#[derive(Clone, Copy, Debug, PartialEq, Eq, Structural)]
pub enum Event {
    /// The timer ran out.
    Woke(DateTime),
    /// The task returned from the notification it was given.
    Notified(DateTime),
    /// The scheduler's shared signal was cancelled.
    Cancelled,
}

/// What the loop around a driver does next.
#[derive(Clone, Copy, Debug, PartialEq, Eq, Structural)]
pub enum Action {
    /// Sleep this many whole seconds, unless cancelled first.
    Sleep(u64),
    /// Tell the task of a firing or a skip.
    Notify(Notice),
    /// Stop driving the task.
    Finish,
}

/// The decisions that drive one task: when to sleep, what to tell it, when to stop.
#[derive(Clone, Debug)]
pub struct Driver {
    /// The schedule being driven.
    pub schedule: Task,
    /// For a daily schedule, the occurrence being waited for.
    pub target: Option<DateTime>,
    /// Where the driver stands.
    pub phase: Phase,
}

/// The phase, target and first action of a driver started at `now`.
pub open spec fn start_step(schedule: Task, now: DateTime) -> (Phase, Option<DateTime>, Action) {
    match schedule {
        Task::Wait(w, _) => (Phase::Asleep, None, Action::Sleep(w)),
        Task::Interval(p, _) => (Phase::Asleep, None, Action::Sleep(p)),
        Task::At(t, _) => match first_occurrence(now, t) {
            Some(n) => (Phase::Asleep, Some(n), Action::Sleep(whole_seconds_until(now, n) as u64)),
            None => (Phase::Finished, None, Action::Finish),
        },
        Task::Once(target, skips) => match Task::once_plan(target, skips, now) {
            OncePlan::SkipNow => (Phase::Notifying, None, Action::Notify(Notice::OnSkip)),
            OncePlan::FireAfter(s) => (Phase::Asleep, None, Action::Sleep(s)),
        },
    }
}

impl Driver {
    /// The schedule and the occurrence waited for are valid, and a running daily driver
    /// knows its occurrence.
    pub open spec fn wf(self) -> bool {
        &&& self.schedule.wf()
        &&& (self.target matches Some(t) ==> t.wf())
        &&& (self.schedule is At && self.phase != Phase::Finished ==> self.target is Some)
    }

    /// What the task is told when the timer runs out at `now`: a daily schedule is judged
    /// at the occurrence it waited for, a one-shot instant was judged before the sleep and
    /// fires, the others are judged at `now`.
    pub open spec fn wake_notice(self, now: DateTime) -> Notice {
        match self.schedule {
            Task::At(..) => self.schedule.notice_for(self.target->Some_0),
            Task::Once(..) => Notice::OnTime,
            _ => self.schedule.notice_for(now),
        }
    }

    /// The phase, target and action after `e`.
    pub open spec fn transition(self, e: Event) -> (Phase, Option<DateTime>, Action) {
        match e {
            Event::Cancelled => (Phase::Finished, self.target, Action::Finish),
            Event::Woke(now) => if self.phase == Phase::Asleep {
                (Phase::Notifying, self.target, Action::Notify(self.wake_notice(now)))
            } else {
                (Phase::Finished, self.target, Action::Finish)
            },
            Event::Notified(now) => if self.phase != Phase::Notifying {
                (Phase::Finished, self.target, Action::Finish)
            } else {
                match self.schedule {
                    Task::Interval(p, _) => (Phase::Asleep, self.target, Action::Sleep(p)),
                    Task::At(..) => {
                        let t = self.target->Some_0;
                        if local_seconds_in_range(t.local_seconds() + SECONDS_PER_DAY) {
                            let n = shifted(t, SECONDS_PER_DAY as int);
                            (Phase::Asleep, Some(n), Action::Sleep(whole_seconds_until(now, n) as u64))
                        } else {
                            (Phase::Finished, self.target, Action::Finish)
                        }
                    },
                    _ => (Phase::Finished, self.target, Action::Finish),
                }
            },
        }
    }

    /// A driver for `schedule` started at `now`, and its first action.
    pub fn start(schedule: Task, now: DateTime) -> (r: (Driver, Action))
        requires
            schedule.wf(),
            now.wf(),
        ensures
            r.0.wf(),
            r.0.schedule == schedule,
            (r.0.phase, r.0.target, r.1) == start_step(schedule, now),
    {
        let (phase, target, action) = match &schedule {
            Task::Wait(w, _) => (Phase::Asleep, None, Action::Sleep(*w)),
            Task::Interval(p, _) => (Phase::Asleep, None, Action::Sleep(*p)),
            Task::At(t, _) => match first_occurrence_of(now, *t) {
                Some(n) => (Phase::Asleep, Some(n), Action::Sleep(seconds_until(now, n))),
                None => (Phase::Finished, None, Action::Finish),
            },
            Task::Once(target, skips) => match plan_once(*target, skips, now) {
                OncePlan::SkipNow => (Phase::Notifying, None, Action::Notify(Notice::OnSkip)),
                OncePlan::FireAfter(s) => (Phase::Asleep, None, Action::Sleep(s)),
            },
        };
        (Driver { schedule, target, phase }, action)
    }

    /// Takes `e` in, and says what to do next.
    pub fn step(&mut self, e: Event) -> (r: Action)
        requires
            old(self).wf(),
            e matches Event::Woke(now) ==> now.wf(),
            e matches Event::Notified(now) ==> now.wf(),
        ensures
            final(self).wf(),
            final(self).schedule == old(self).schedule,
            (final(self).phase, final(self).target, r) == old(self).transition(e),
    {
        match e {
            Event::Cancelled => {
                self.phase = Phase::Finished;
                Action::Finish
            },
            Event::Woke(now) => {
                if self.phase != Phase::Asleep {
                    self.phase = Phase::Finished;
                    return Action::Finish;
                }
                let notice = match &self.schedule {
                    Task::At(..) => match self.target {
                        Some(t) => self.schedule.notice_at(t),
                        None => Notice::OnTime,
                    },
                    Task::Once(..) => Notice::OnTime,
                    _ => self.schedule.notice_at(now),
                };
                self.phase = Phase::Notifying;
                Action::Notify(notice)
            },
            Event::Notified(now) => {
                if self.phase != Phase::Notifying {
                    self.phase = Phase::Finished;
                    return Action::Finish;
                }
                match &self.schedule {
                    Task::Interval(p, _) => {
                        let p = *p;
                        self.phase = Phase::Asleep;
                        Action::Sleep(p)
                    },
                    Task::At(..) => {
                        let t = match self.target {
                            Some(t) => t,
                            None => {
                                self.phase = Phase::Finished;
                                return Action::Finish;
                            },
                        };
                        match advance_one_day(t) {
                            Some(n) => {
                                self.target = Some(n);
                                self.phase = Phase::Asleep;
                                Action::Sleep(seconds_until(now, n))
                            },
                            None => {
                                self.phase = Phase::Finished;
                                Action::Finish
                            },
                        }
                    },
                    _ => {
                        self.phase = Phase::Finished;
                        Action::Finish
                    },
                }
            },
        }
    }
}

/// Once cancelled, a driver is finished, and a finished driver does nothing more whatever
/// happens: no task is told anything after its scheduler stops.
pub proof fn lemma_cancelled_driver_stays_finished(d: Driver, e: Event)
    ensures
        d.transition(Event::Cancelled).0 == Phase::Finished,
        d.transition(Event::Cancelled).2 == Action::Finish,
        d.phase == Phase::Finished ==> d.transition(e).0 == Phase::Finished && d.transition(e).2
            == Action::Finish,
{
}

/// A one-shot instant strictly before the clock reading at start is told as exactly one
/// skip: the first action tells of a skip, and once the task has been told, the driver
/// finishes.
pub proof fn lemma_once_in_the_past_is_one_skip(
    target: DateTime,
    skips: Option<Vec<Skip>>,
    now: DateTime,
    later: DateTime,
)
    requires
        target.spec_is_before(now),
    ensures
        start_step(Task::Once(target, skips), now).2 == Action::Notify(Notice::OnSkip),
        (Driver {
            schedule: Task::Once(target, skips),
            target: start_step(Task::Once(target, skips), now).1,
            phase: start_step(Task::Once(target, skips), now).0,
        }).transition(Event::Notified(later)).2 == Action::Finish,
{
}

/// A one-shot instant two seconds after the clock reading at start, which no rule skips, is
/// fired exactly once: the driver sleeps two seconds, then tells of a firing, then finishes.
pub proof fn lemma_once_two_seconds_ahead_is_one_firing(
    target: DateTime,
    skips: Option<Vec<Skip>>,
    now: DateTime,
    woke: DateTime,
    later: DateTime,
)
    requires
        target.instant_seconds() == now.instant_seconds() + 2,
        target.time.nanosecond == now.time.nanosecond,
        !crate::skip::skipped_by(skips, target),
    ensures
        start_step(Task::Once(target, skips), now) == (Phase::Asleep, None::<DateTime>, Action::Sleep(2)),
        ({
            let asleep = Driver { schedule: Task::Once(target, skips), target: None, phase: Phase::Asleep };
            let notifying = Driver { phase: Phase::Notifying, ..asleep };
            &&& asleep.transition(Event::Woke(woke)) == (Phase::Notifying, None::<DateTime>, Action::Notify(Notice::OnTime))
            &&& notifying.transition(Event::Notified(later)).2 == Action::Finish
        }),
{
    assert(whole_seconds_until(now, target) == 2);
}

/// An interval without rules sleeps its period, fires at every wake, and sleeps its period
/// again after each firing, until it is cancelled.
pub proof fn lemma_interval_without_rules_repeats(p: u64, now: DateTime, woke: DateTime, later: DateTime)
    ensures
        start_step(Task::Interval(p, None), now).2 == Action::Sleep(p),
        (Driver { schedule: Task::Interval(p, None), target: None, phase: Phase::Asleep }).transition(
            Event::Woke(woke),
        ) == (Phase::Notifying, None::<DateTime>, Action::Notify(Notice::OnTime)),
        (Driver { schedule: Task::Interval(p, None), target: None, phase: Phase::Notifying }).transition(
            Event::Notified(later),
        ) == (Phase::Asleep, None::<DateTime>, Action::Sleep(p)),
{
}

/// An interval whose rules list all seven weekdays tells of a skip at every wake, never of
/// a firing.
pub proof fn lemma_interval_skipping_every_weekday_never_fires(
    p: u64,
    rules: Vec<Skip>,
    i: int,
    woke: DateTime,
)
    requires
        woke.wf(),
        0 <= i < rules@.len(),
        rules@[i]@ == SkipModel::Day(seq![1u8, 2, 3, 4, 5, 6, 7]),
    ensures
        (Driver { schedule: Task::Interval(p, Some(rules)), target: None, phase: Phase::Asleep }).transition(
            Event::Woke(woke),
        ).2 == Action::Notify(Notice::OnSkip),
{
    crate::task::lemma_every_weekday_rule_always_skips(Task::Interval(p, Some(rules)), i, woke);
}

} // verus!
