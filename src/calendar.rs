use vstd::prelude::*;

verus! {

/// The smallest year that a date may hold.
pub const MIN_YEAR: i32 = -9999;

/// The largest year that a date may hold.
pub const MAX_YEAR: i32 = 9999;

/// Seconds in one calendar day.
pub const SECONDS_PER_DAY: i64 = 86400;

/// The largest distance from UTC, in seconds, that an offset may have (25:59:59).
pub const MAX_OFFSET_SECONDS: i32 = 93599;

/// A day of the proleptic Gregorian calendar.
#[derive(Clone, Copy, Debug, PartialEq, Eq, Structural)]
pub struct Date {
    pub year: i32,
    pub month: u8,
    pub day: u8,
}

/// A wall-clock time within one day.
#[derive(Clone, Copy, Debug, PartialEq, Eq, Structural)]
pub struct Time {
    pub hour: u8,
    pub minute: u8,
    pub second: u8,
    pub nanosecond: u32,
}

/// A date and a wall-clock time, read at a fixed offset from UTC.
#[derive(Clone, Copy, Debug, PartialEq, Eq, Structural)]
pub struct DateTime {
    pub date: Date,
    pub time: Time,
    pub offset_seconds: i32,
}

pub open spec fn is_leap_year(y: int) -> bool {
    y % 4 == 0 && (y % 100 != 0 || y % 400 == 0)
}

pub open spec fn days_in_month(y: int, m: int) -> int {
    if m == 2 {
        if is_leap_year(y) { 29 } else { 28 }
    } else if m == 4 || m == 6 || m == 9 || m == 11 {
        30
    } else {
        31
    }
}

/// Whether the three numbers name a day of the calendar.
pub open spec fn date_fields_valid(y: int, m: int, d: int) -> bool {
    &&& MIN_YEAR <= y <= MAX_YEAR
    &&& 1 <= m <= 12
    &&& 1 <= d <= days_in_month(y, m)
}

/// Days from 1970-01-01 to the given day (negative before it).
pub open spec fn day_number(y: int, m: int, d: int) -> int {
    let y2 = if m <= 2 { y - 1 } else { y };
    let era = y2 / 400;
    let yoe = y2 % 400;
    let mp = if m > 2 { m - 3 } else { m + 9 };
    let doy = (153 * mp + 2) / 5 + d - 1;
    let doe = yoe * 365 + yoe / 4 - yoe / 100 + doy;
    era * 146097 + doe - 719468
}

/// Bounds on the day number of every day that a `Date` may hold.
pub proof fn lemma_day_number_bounds(y: int, m: int, d: int)
    requires
        date_fields_valid(y, m, d),
    ensures
        -4_400_000 <= day_number(y, m, d) <= 3_000_000,
{
    let y2 = if m <= 2 { y - 1 } else { y };
    let era = y2 / 400;
    let yoe = y2 % 400;
    let mp = if m > 2 { m - 3 } else { m + 9 };
    assert(-25 <= era <= 24) by (nonlinear_arith)
        requires
            era == y2 / 400,
            -10000 <= y2 <= 9999,
    ;
    assert(0 <= yoe < 400);
    assert(0 <= (153 * mp + 2) / 5 <= 337) by (nonlinear_arith)
        requires
            0 <= mp <= 11,
    ;
    assert(0 <= yoe * 365 <= 399 * 365) by (nonlinear_arith)
        requires
            0 <= yoe < 400,
    ;
    assert(-25 * 146097 <= era * 146097 <= 24 * 146097) by (nonlinear_arith)
        requires
            -25 <= era <= 24,
    ;
}

impl Date {
    /// The day exists in the calendar and its year is within range.
    pub open spec fn wf(self) -> bool {
        date_fields_valid(self.year as int, self.month as int, self.day as int)
    }

    /// Days from 1970-01-01.
    pub open spec fn day_number(self) -> int {
        day_number(self.year as int, self.month as int, self.day as int)
    }

    /// A number that orders dates as the calendar does.
    pub open spec fn order_key(self) -> int {
        self.year * 512 + self.month * 32 + self.day
    }

    /// The ISO weekday: 1 is Monday, 7 is Sunday.
    pub open spec fn weekday(self) -> int {
        (self.day_number() + 3) % 7 + 1
    }

    /// The date with these fields, where such a day exists.
    pub fn new(year: i32, month: u8, day: u8) -> (r: Option<Date>)
        ensures
            r is Some <==> date_fields_valid(year as int, month as int, day as int),
            r matches Some(d) ==> d.year == year && d.month == month && d.day == day,
    {
        if calendar_date_exists(year, month, day) {
            Some(Date { year, month, day })
        } else {
            None
        }
    }

    /// Whether the day exists in the calendar and its year is within range.
    pub fn is_valid(&self) -> (r: bool)
        ensures
            r == self.wf(),
    {
        calendar_date_exists(self.year, self.month, self.day)
    }

    /// The ISO weekday of this date: 1 is Monday, 7 is Sunday.
    pub fn weekday_number(&self) -> (r: u8)
        requires
            self.wf(),
        ensures
            r == self.weekday(),
            1 <= r <= 7,
    {
        weekday_from_monday(self)
    }

    /// Whether this date comes no later than `other`.
    pub fn is_on_or_before(&self, other: &Date) -> (r: bool)
        requires
            1 <= self.month <= 12,
            1 <= self.day <= 31,
            1 <= other.month <= 12,
            1 <= other.day <= 31,
        ensures
            r == (self.order_key() <= other.order_key()),
    {
        if self.year != other.year {
            self.year < other.year
        } else if self.month != other.month {
            self.month < other.month
        } else {
            self.day <= other.day
        }
    }
}

impl Time {
    /// Each field is within its range.
    pub open spec fn wf(self) -> bool {
        &&& self.hour < 24
        &&& self.minute < 60
        &&& self.second < 60
        &&& self.nanosecond < 1_000_000_000
    }

    /// Whole seconds since midnight.
    pub open spec fn seconds_of_day(self) -> int {
        self.hour * 3600 + self.minute * 60 + self.second
    }

    /// Nanoseconds since midnight; orders times within a day.
    pub open spec fn nanos_of_day(self) -> int {
        self.seconds_of_day() * 1_000_000_000 + self.nanosecond
    }

    /// The time with these hour, minute and second, and no fraction of a second.
    pub fn from_hms(hour: u8, minute: u8, second: u8) -> (r: Option<Time>)
        ensures
            r is Some <==> (hour < 24 && minute < 60 && second < 60),
            r matches Some(t) ==> t == (Time { hour, minute, second, nanosecond: 0 }),
    {
        if hour < 24 && minute < 60 && second < 60 {
            Some(Time { hour, minute, second, nanosecond: 0 })
        } else {
            None
        }
    }

    /// Whether each field is within its range.
    pub fn is_valid(&self) -> (r: bool)
        ensures
            r == self.wf(),
    {
        self.hour < 24 && self.minute < 60 && self.second < 60 && self.nanosecond < 1_000_000_000
    }

    /// Whether this time comes no later in the day than `other`.
    pub fn is_on_or_before(&self, other: &Time) -> (r: bool)
        requires
            self.wf(),
            other.wf(),
        ensures
            r == (self.nanos_of_day() <= other.nanos_of_day()),
    {
        let a: u64 = self.hour as u64 * 3600 + self.minute as u64 * 60 + self.second as u64;
        let b: u64 = other.hour as u64 * 3600 + other.minute as u64 * 60 + other.second as u64;
        if a != b {
            a < b
        } else {
            self.nanosecond <= other.nanosecond
        }
    }
}

impl DateTime {
    /// The date and time are valid and the offset is one that UTC offsets may take.
    pub open spec fn wf(self) -> bool {
        &&& self.date.wf()
        &&& self.time.wf()
        &&& -MAX_OFFSET_SECONDS <= self.offset_seconds <= MAX_OFFSET_SECONDS
    }

    /// Whole seconds of the wall clock since 1970-01-01 00:00 on that clock.
    pub open spec fn local_seconds(self) -> int {
        self.date.day_number() * SECONDS_PER_DAY + self.time.seconds_of_day()
    }

    /// Whole seconds since the Unix epoch of the instant this value names.
    pub open spec fn instant_seconds(self) -> int {
        self.local_seconds() - self.offset_seconds
    }

    /// Whether this instant lies strictly before `other`, whatever the offsets.
    pub open spec fn spec_is_before(self, other: DateTime) -> bool {
        self.instant_seconds() < other.instant_seconds() || (self.instant_seconds()
            == other.instant_seconds() && self.time.nanosecond < other.time.nanosecond)
    }

    /// Whether the date and time are valid and the offset is within range.
    pub fn is_valid(&self) -> (r: bool)
        ensures
            r == self.wf(),
    {
        self.date.is_valid() && self.time.is_valid() && -MAX_OFFSET_SECONDS <= self.offset_seconds
            && self.offset_seconds <= MAX_OFFSET_SECONDS
    }

    /// The given date and time in UTC.
    pub fn new_utc(date: Date, time: Time) -> (r: DateTime)
        ensures
            r == (DateTime { date, time, offset_seconds: 0 }),
    {
        DateTime { date, time, offset_seconds: 0 }
    }

    /// The given date and time at an offset of `offset_seconds` from UTC.
    pub fn new_in_offset(date: Date, time: Time, offset_seconds: i32) -> (r: DateTime)
        ensures
            r == (DateTime { date, time, offset_seconds }),
    {
        DateTime { date, time, offset_seconds }
    }

    /// Whole seconds since the Unix epoch.
    pub fn unix_timestamp(&self) -> (r: i64)
        requires
            self.wf(),
        ensures
            r == self.instant_seconds(),
            -400_000_000_000 <= r <= 300_000_000_000,
    {
        proof {
            lemma_local_seconds_bounds(*self);
        }
        unix_timestamp_of(self)
    }

    /// This value moved `seconds` later on its own clock, where the result stays in range.
    pub fn checked_add_seconds(&self, seconds: i64) -> (r: Option<DateTime>)
        requires
            self.wf(),
        ensures
            r is Some <==> local_seconds_in_range(self.local_seconds() + seconds),
            r matches Some(n) ==> n == shifted(*self, seconds as int) && n.wf(),
    {
        match checked_add_seconds_of(self, seconds) {
            Some(f) => Some(from_fields(f)),
            None => None,
        }
    }

    /// Whether this instant lies strictly before `other`.
    pub fn is_before(&self, other: &DateTime) -> (r: bool)
        requires
            self.wf(),
            other.wf(),
        ensures
            r == self.spec_is_before(*other),
    {
        let a = self.unix_timestamp();
        let b = other.unix_timestamp();
        a < b || (a == b && self.time.nanosecond < other.time.nanosecond)
    }
}

/// Whether a clock reading, in seconds since 1970-01-01 00:00 on that clock, falls on a
/// day that a `Date` may hold.
pub open spec fn local_seconds_in_range(s: int) -> bool {
    day_number(MIN_YEAR as int, 1, 1) * SECONDS_PER_DAY <= s < (day_number(MAX_YEAR as int, 12, 31)
        + 1) * SECONDS_PER_DAY
}

/// The calendar day that lies `z` days after 1970-01-01 (before it, where `z` is negative).
pub open spec fn date_of_day_number(z: int) -> Date {
    let z2 = z + 719468;
    let era = z2 / 146097;
    let doe = z2 - era * 146097;
    let yoe = (doe - doe / 1460 + doe / 36524 - doe / 146096) / 365;
    let doy = doe - (365 * yoe + yoe / 4 - yoe / 100);
    let mp = (5 * doy + 2) / 153;
    let d = doy - (153 * mp + 2) / 5 + 1;
    let m = if mp < 10 { mp + 3 } else { mp - 9 };
    let y = yoe + era * 400 + if m <= 2 { 1int } else { 0int };
    Date { year: y as i32, month: m as u8, day: d as u8 }
}

/// The wall-clock time `s` seconds after midnight, with the given fraction of a second.
pub open spec fn time_of_seconds(s: int, nanosecond: u32) -> Time {
    Time {
        hour: (s / 3600) as u8,
        minute: ((s % 3600) / 60) as u8,
        second: (s % 60) as u8,
        nanosecond,
    }
}

/// `dt` moved `s` seconds on its own clock: same offset, same fraction of a second.
pub open spec fn shifted(dt: DateTime, s: int) -> DateTime {
    let l = dt.local_seconds() + s;
    DateTime {
        date: date_of_day_number(l / SECONDS_PER_DAY as int),
        time: time_of_seconds(l % SECONDS_PER_DAY as int, dt.time.nanosecond),
        offset_seconds: dt.offset_seconds,
    }
}

/// Bounds on the clock reading of every valid value, and on the supported range.
pub proof fn lemma_local_seconds_bounds(dt: DateTime)
    requires
        dt.wf(),
    ensures
        -400_000_000_000 <= dt.local_seconds() <= 300_000_000_000,
        -400_000_000_000 <= dt.instant_seconds() <= 300_000_000_000,
        forall|s: int| #[trigger] local_seconds_in_range(s) ==> -400_000_000_000 <= s <= 300_000_000_000,
{
    lemma_day_number_bounds(dt.date.year as int, dt.date.month as int, dt.date.day as int);
    lemma_day_number_bounds(MIN_YEAR as int, 1, 1);
    lemma_day_number_bounds(MAX_YEAR as int, 12, 31);
}

/// Relies on time::Month::try_from and time::Date::from_calendar_date: the date exists
/// exactly when the year is within range, the month is 1 to 12 and the day is in the month.
#[verifier::external_body]
fn calendar_date_exists(year: i32, month: u8, day: u8) -> (r: bool)
    ensures
        r == date_fields_valid(year as int, month as int, day as int),
{
    match time::Month::try_from(month) {
        Ok(m) => time::Date::from_calendar_date(year, m, day).is_ok(),
        Err(_) => false,
    }
}

/// Relies on time::Date::weekday and time::Weekday::number_from_monday (Monday is 1).
#[verifier::external_body]
fn weekday_from_monday(d: &Date) -> (r: u8)
    requires
        d.wf(),
    ensures
        r == d.weekday(),
{
    let month = time::Month::try_from(d.month).unwrap();
    time::Date::from_calendar_date(d.year, month, d.day).unwrap().weekday().number_from_monday()
}

/// Relies on time::OffsetDateTime::unix_timestamp: day count times 86400, plus the time of
/// day, minus the offset.
#[verifier::external_body]
fn unix_timestamp_of(dt: &DateTime) -> (r: i64)
    requires
        dt.wf(),
    ensures
        r == dt.instant_seconds(),
{
    let month = time::Month::try_from(dt.date.month).unwrap();
    let date = time::Date::from_calendar_date(dt.date.year, month, dt.date.day).unwrap();
    let t = dt.time;
    let time = time::Time::from_hms_nano(t.hour, t.minute, t.second, t.nanosecond).unwrap();
    let offset = time::UtcOffset::from_whole_seconds(dt.offset_seconds).unwrap();
    time::OffsetDateTime::new_in_offset(date, time, offset).unix_timestamp()
}

/// A date and time written out field by field: year, month, day, hour, minute, second,
/// nanosecond and offset in seconds.
pub type Fields = (i32, u8, u8, u8, u8, u8, u32, i32);

/// The value the fields write.
pub open spec fn fields_value(f: Fields) -> DateTime {
    DateTime {
        date: Date { year: f.0, month: f.1, day: f.2 },
        time: Time { hour: f.3, minute: f.4, second: f.5, nanosecond: f.6 },
        offset_seconds: f.7,
    }
}

/// The value the fields write.
pub fn from_fields(f: Fields) -> (r: DateTime)
    ensures
        r == fields_value(f),
{
    DateTime {
        date: Date { year: f.0, month: f.1, day: f.2 },
        time: Time { hour: f.3, minute: f.4, second: f.5, nanosecond: f.6 },
        offset_seconds: f.7,
    }
}

/// Relies on time::PrimitiveDateTime::checked_add: the wall clock moves by the duration,
/// and the result is `None` where its date would leave the supported range.
#[verifier::external_body]
fn checked_add_seconds_of(dt: &DateTime, seconds: i64) -> (r: Option<Fields>)
    requires
        dt.wf(),
    ensures
        r is Some <==> local_seconds_in_range(dt.local_seconds() + seconds),
        r matches Some(f) ==> fields_value(f) == shifted(*dt, seconds as int) && fields_value(f).wf(),
{
    let month = time::Month::try_from(dt.date.month).unwrap();
    let date = time::Date::from_calendar_date(dt.date.year, month, dt.date.day).unwrap();
    let t = dt.time;
    let local = date.with_hms_nano(t.hour, t.minute, t.second, t.nanosecond).unwrap();
    let n = local.checked_add(time::Duration::seconds(seconds))?;
    let (h, m, s, ns) = n.as_hms_nano();
    Some((n.year(), n.month() as u8, n.day(), h, m, s, ns, dt.offset_seconds))
}

} // verus!
