use vstd::prelude::*;

use tokio_util::sync::CancellationToken;

use crate::calendar::{fields_value, from_fields, DateTime, Fields, MAX_OFFSET_SECONDS};
use crate::task::Task;

verus! {

/// tokio_util's CancellationToken, carried as an opaque value: the signal that the
/// scheduler shares with every task it runs.
#[verifier::external_type_specification]
#[verifier::external_body]
pub struct ExCancellationToken(CancellationToken);

/// Relies on CancellationToken::new: a fresh token, shared by nothing else yet.
pub assume_specification[ CancellationToken::new ]() -> CancellationToken;

/// Relies on CancellationToken::cancel: cancels the token and every clone of it; a second
/// call does nothing more.
pub assume_specification[ CancellationToken::cancel ](token: &CancellationToken);

/// Relies on CancellationToken's Clone: a handle on the same cancellation state.
pub assume_specification[ <CancellationToken as Clone>::clone ](
    token: &CancellationToken,
) -> CancellationToken;

/// Minutes east of UTC that a scheduler uses unless told otherwise (UTC+8).
pub const DEFAULT_TIMEZONE_MINUTES: i16 = 480;

/// Runs tasks on their schedules; one shared signal stops them all.
pub struct Scheduler {
    cancel: CancellationToken,
    timezone_minutes: i16,
}

impl Scheduler {
    /// Minutes east of UTC at which the scheduler reads the clock.
    pub closed spec fn offset_minutes(&self) -> int {
        self.timezone_minutes as int
    }

    /// A scheduler at UTC+8.
    pub fn new() -> (r: Scheduler)
        ensures
            r.offset_minutes() == DEFAULT_TIMEZONE_MINUTES,
    {
        Scheduler::with_timezone(8, 0)
    }

    /// A scheduler at the offset of `timezone_hours` hours and `timezone_minutes` minutes.
    pub fn with_timezone(timezone_hours: i8, timezone_minutes: i8) -> (r: Scheduler)
        ensures
            r.offset_minutes() == timezone_hours * 60 + timezone_minutes,
    {
        Scheduler {
            cancel: CancellationToken::new(),
            timezone_minutes: (timezone_hours as i16) * 60 + (timezone_minutes as i16),
        }
    }

    /// A scheduler at the offset of `timezone_minutes` minutes.
    pub fn with_timezone_minutes(timezone_minutes: i16) -> (r: Scheduler)
        ensures
            r.offset_minutes() == timezone_minutes,
    {
        Scheduler { cancel: CancellationToken::new(), timezone_minutes }
    }

    /// Minutes east of UTC at which the scheduler reads the clock.
    pub fn timezone_minutes(&self) -> (r: i16)
        ensures
            r == self.offset_minutes(),
    {
        self.timezone_minutes
    }

    /// Cancels the shared signal, which stops every task run by this scheduler; calling it
    /// again does nothing more.
    pub fn stop(&self) {
        self.cancel.cancel();
    }

    /// A handle on the shared signal.
    pub fn get_cancel(&self) -> CancellationToken {
        self.cancel.clone()
    }

    /// The current time at the scheduler's offset, or in UTC where that offset cannot be
    /// used.
    pub fn now(&self) -> (r: DateTime)
        ensures
            r.wf(),
            r.offset_seconds == self.offset_minutes() * 60 || r.offset_seconds == 0,
            !(-MAX_OFFSET_SECONDS <= self.offset_minutes() * 60 <= MAX_OFFSET_SECONDS)
                ==> r.offset_seconds == 0,
    {
        now_at_offset(self.timezone_minutes)
    }

    /// When `task` would next fire if it were run now: what `Task::next_run_time` gives for a
    /// clock reading at the scheduler's offset (or in UTC where that offset cannot be used).
    pub fn get_next_run_time(&self, task: &Task) -> (r: Option<DateTime>)
        requires
            task.wf(),
        ensures
            exists|now: DateTime|
                {
                    &&& now.wf()
                    &&& (now.offset_seconds == self.offset_minutes() * 60 || now.offset_seconds
                        == 0)
                    &&& r == task.next_run(now)
                },
    {
        let now = self.now();
        task.next_run_time(now)
    }
}

/// The current time at `timezone_minutes` minutes east of UTC; in UTC where that offset is
/// out of range, or where the clock read at it would leave the supported dates.
pub fn now_at_offset(timezone_minutes: i16) -> (r: DateTime)
    ensures
        r.wf(),
        r.offset_seconds == timezone_minutes * 60 || r.offset_seconds == 0,
        !(-MAX_OFFSET_SECONDS <= timezone_minutes * 60 <= MAX_OFFSET_SECONDS) ==> r.offset_seconds
            == 0,
{
    let offset: i32 = timezone_minutes as i32 * 60;
    if -MAX_OFFSET_SECONDS <= offset && offset <= MAX_OFFSET_SECONDS {
        if let Some(f) = clock_at(offset) {
            return from_fields(f);
        }
    }
    from_fields(clock_utc())
}

impl Default for Scheduler {
    fn default() -> (r: Scheduler)
        ensures
            r.offset_minutes() == DEFAULT_TIMEZONE_MINUTES,
    {
        Scheduler::new()
    }
}

/// Relies on time::OffsetDateTime::now_utc: the current instant, in UTC.
#[verifier::external_body]
fn clock_utc() -> (r: Fields)
    ensures
        fields_value(r).wf(),
        r.7 == 0,
{
    let n = time::OffsetDateTime::now_utc();
    let (h, m, s, ns) = n.to_hms_nano();
    (n.year(), n.month() as u8, n.day(), h, m, s, ns, n.offset().whole_seconds())
}

/// Relies on time::OffsetDateTime::now_utc and checked_to_offset: the current instant read
/// at the given offset, or `None` where its date there would leave the supported range.
#[verifier::external_body]
fn clock_at(offset_seconds: i32) -> (r: Option<Fields>)
    requires
        -MAX_OFFSET_SECONDS <= offset_seconds <= MAX_OFFSET_SECONDS,
    ensures
        r matches Some(f) ==> fields_value(f).wf() && f.7 == offset_seconds,
{
    let offset = time::UtcOffset::from_whole_seconds(offset_seconds).unwrap();
    let n = time::OffsetDateTime::now_utc().checked_to_offset(offset)?;
    let (h, m, s, ns) = n.to_hms_nano();
    Some((n.year(), n.month() as u8, n.day(), h, m, s, ns, n.offset().whole_seconds()))
}

} // verus!
