use vstd::prelude::*;
use vstd::string::{StrSliceExecFns, StringExecFns};

use crate::calendar::{date_fields_valid, fields_value, from_fields, Date, DateTime, Fields, Time};
use crate::skip::{Skip, SkipModel};
use crate::render::{decimal, decimal_string};
use crate::task::{Task, TaskModel};
use crate::text::{
    find_char, find_char_exec, find_two_dots, find_two_dots_exec, find_ws, find_ws_exec,
    is_digit, parse_i32, parse_unsigned, rfind_char, rfind_char_exec, signed_value, skip_ws,
    skip_ws_exec, trim_end, trim_end_exec, unsigned_value, within,
};

verus! {

/// The time that `t` writes as `HH:MM` on a 24-hour clock.
pub open spec fn hour_minute_value(t: Seq<char>) -> Option<Time> {
    if t.len() == 5 && is_digit(t[0]) && is_digit(t[1]) && t[2] == ':' && is_digit(t[3])
        && is_digit(t[4]) {
        let h = (t[0] as int - '0' as int) * 10 + (t[1] as int - '0' as int);
        let m = (t[3] as int - '0' as int) * 10 + (t[4] as int - '0' as int);
        if h < 24 && m < 60 {
            Some(Time { hour: h as u8, minute: m as u8, second: 0, nanosecond: 0 })
        } else {
            None
        }
    } else {
        None
    }
}

/// The instant that a text of the form `YYYY-MM-DD HH:MM:SS +HH` writes, as the `time`
/// crate reads it.
pub uninterp spec fn offset_date_time_text_value(text: Seq<char>) -> Option<DateTime>;

/// `before`, then `middle`, then `after`.
pub open spec fn quoted(before: Seq<char>, middle: Seq<char>, after: Seq<char>) -> Seq<char> {
    before + middle + after
}

/// `v` in decimal, with a `-` where it is negative.
pub open spec fn signed_decimal(v: int) -> Seq<char> {
    if v < 0 {
        "-"@ + decimal((-v) as nat)
    } else {
        decimal(v as nat)
    }
}

/// The date that `s[lo..hi]` writes as three numbers joined by `-`, or what is wrong.
pub open spec fn date_result(s: Seq<char>, lo: int, hi: int) -> Result<Date, Seq<char>> {
    let d1 = find_char(s, '-', lo, hi);
    let d2 = find_char(s, '-', d1 + 1, hi);
    if !(d1 < hi && d2 < hi && find_char(s, '-', d2 + 1, hi) == hi) {
        Err(quoted("Invalid date format: '"@, s.subrange(lo, hi), "'. Expected 'YYYY-MM-DD'"@))
    } else {
        let y = within(signed_value(s, lo, d1), i32::MIN as int, i32::MAX as int);
        let m = within(unsigned_value(s, d1 + 1, d2), 0, 255);
        let d = within(unsigned_value(s, d2 + 1, hi), 0, 255);
        if y is None {
            Err(quoted("Invalid year: '"@, s.subrange(lo, d1), "'"@))
        } else if m is None {
            Err(quoted("Invalid month: '"@, s.subrange(d1 + 1, d2), "'"@))
        } else if d is None {
            Err(quoted("Invalid day: '"@, s.subrange(d2 + 1, hi), "'"@))
        } else if !(1 <= m->Some_0 <= 12) {
            Err("Invalid month: "@ + decimal(m->Some_0 as nat))
        } else if !date_fields_valid(y->Some_0, m->Some_0, d->Some_0) {
            Err(
                "Invalid date: "@ + signed_decimal(y->Some_0) + "-"@ + decimal(m->Some_0 as nat)
                    + "-"@ + decimal(d->Some_0 as nat),
            )
        } else {
            Ok(Date { year: y->Some_0 as i32, month: m->Some_0 as u8, day: d->Some_0 as u8 })
        }
    }
}

/// The rule that `s[lo..hi]` writes as `HH:MM` or `HH:MM..HH:MM`, or what is wrong.
pub open spec fn time_result(s: Seq<char>, lo: int, hi: int) -> Result<SkipModel, Seq<char>> {
    let p = find_two_dots(s, lo, hi);
    if p < hi {
        let a = hour_minute_value(s.subrange(lo, p));
        let b = hour_minute_value(s.subrange(p + 2, hi));
        if a is None {
            Err(quoted("Invalid start time: '"@, s.subrange(lo, p), "'"@))
        } else if b is None {
            Err(quoted("Invalid end time: '"@, s.subrange(p + 2, hi), "'"@))
        } else {
            Ok(SkipModel::TimeRange(a->Some_0, b->Some_0))
        }
    } else {
        match hour_minute_value(s.subrange(lo, hi)) {
            Some(t) => Ok(SkipModel::Time(t)),
            None => Err(quoted("Invalid time: '"@, s.subrange(lo, hi), "'"@)),
        }
    }
}

/// The rule that `s[lo..hi]` writes: `weekday N`, `date Y-M-D`, `time HH:MM` or
/// `time HH:MM..HH:MM`, two words with white space around and between them; or what is
/// wrong.
pub open spec fn skip_rule_result(s: Seq<char>, lo: int, hi: int) -> Result<SkipModel, Seq<char>> {
    let a = skip_ws(s, lo, hi);
    let b = trim_end(s, a, hi);
    let w1 = find_ws(s, a, b);
    let c = skip_ws(s, w1, b);
    let two_words = c < b && find_ws(s, c, b) == b;
    let kind = s.subrange(a, w1);
    let text = s.subrange(a, b);
    if a == b {
        Err("Empty skip condition"@)
    } else if kind == "weekday"@ {
        if !two_words {
            Err(quoted("Invalid weekday format: '"@, text, "'. Expected 'weekday N'"@))
        } else {
            match within(unsigned_value(s, c, b), 0, 255) {
                None => Err(quoted("Invalid weekday number: '"@, s.subrange(c, b), "'"@)),
                Some(d) => if 1 <= d <= 7 {
                    Ok(SkipModel::Day(seq![d as u8]))
                } else {
                    Err("Weekday must be between 1-7, got: "@ + decimal(d as nat))
                },
            }
        }
    } else if kind == "date"@ {
        if !two_words {
            Err(quoted("Invalid date format: '"@, text, "'. Expected 'date YYYY-MM-DD'"@))
        } else {
            match date_result(s, c, b) {
                Ok(d) => Ok(SkipModel::Date(d)),
                Err(e) => Err(e),
            }
        }
    } else if kind == "time"@ {
        if !two_words {
            Err(quoted("Invalid time format: '"@, text, "'. Expected 'time HH:MM..HH:MM'"@))
        } else {
            time_result(s, c, b)
        }
    } else {
        Err(quoted("Unknown skip type: '"@, kind, "'. Supported types: weekday, date, time"@))
    }
}

/// The rules that the comma-separated pieces of `s[p..b]` write (empty pieces write none),
/// or what is wrong with the first piece that is wrong.
pub open spec fn pieces_result(s: Seq<char>, p: int, b: int) -> Result<Seq<SkipModel>, Seq<char>>
    decreases b - p,
{
    let c = find_char(s, ',', p, b);
    let pa = skip_ws(s, p, c);
    let head = if pa == trim_end(s, pa, c) {
        Ok(Seq::<SkipModel>::empty())
    } else {
        match skip_rule_result(s, p, c) {
            Ok(r) => Ok(seq![r]),
            Err(e) => Err(e),
        }
    };
    match head {
        Err(e) => Err(e),
        Ok(h) => if p <= c < b {
            match pieces_result(s, c + 1, b) {
                Ok(t) => Ok(h + t),
                Err(e) => Err(e),
            }
        } else {
            Ok(h)
        },
    }
}

/// The rules that a bracketed list's inside `s[lo..hi]` writes, or what is wrong.
pub open spec fn list_result(s: Seq<char>, lo: int, hi: int) -> Result<Seq<SkipModel>, Seq<char>> {
    let a = skip_ws(s, lo, hi);
    let b = trim_end(s, a, hi);
    if a == b {
        Ok(Seq::<SkipModel>::empty())
    } else {
        pieces_result(s, a, b)
    }
}

/// The rules that `s[lo..hi]` writes, one rule or a bracketed list, or what is wrong.
pub open spec fn skip_conditions_result(s: Seq<char>, lo: int, hi: int) -> Result<
    Seq<SkipModel>,
    Seq<char>,
> {
    let a = skip_ws(s, lo, hi);
    let b = trim_end(s, a, hi);
    if b - a >= 2 && s[a] == '[' && s[b - 1] == ']' {
        list_result(s, a + 1, b - 1)
    } else {
        match skip_rule_result(s, a, b) {
            Ok(r) => Ok(seq![r]),
            Err(e) => Err(e),
        }
    }
}

/// The bounds of the main argument in `s[a..b]` and the rules after its first comma, if
/// any; or what is wrong with the rules.
pub open spec fn arguments_result(s: Seq<char>, a: int, b: int) -> Result<
    (int, int, Option<Seq<SkipModel>>),
    Seq<char>,
> {
    let comma = find_char(s, ',', a, b);
    if comma < b {
        let pa = skip_ws(s, a, comma);
        match skip_conditions_result(s, comma + 1, b) {
            Ok(rules) => Ok((pa, trim_end(s, pa, comma), Some(rules))),
            Err(e) => Err(e),
        }
    } else {
        Ok((a, b, None))
    }
}

/// The schedule that the descriptor `s` writes as `kind(argument[, rules])`, or a message
/// that names what is wrong.
pub open spec fn task_result(s: Seq<char>) -> Result<TaskModel, Seq<char>> {
    let lo = skip_ws(s, 0, s.len() as int);
    let hi = trim_end(s, lo, s.len() as int);
    let whole = s.subrange(lo, hi);
    let open = find_char(s, '(', lo, hi);
    let close = rfind_char(s, ')', lo, hi);
    let na = skip_ws(s, lo, open);
    let name = s.subrange(na, trim_end(s, na, open));
    let aa = skip_ws(s, open + 1, close);
    if open >= hi {
        Err(quoted("Invalid task format: '"@, whole, "'. Expected format like 'wait(10)'"@))
    } else if close < lo {
        Err(quoted("Missing closing parenthesis in: '"@, whole, "'"@))
    } else if close <= open {
        Err(quoted("Invalid parentheses in: '"@, whole, "'"@))
    } else {
        match arguments_result(s, aa, trim_end(s, aa, close)) {
            Err(e) => Err(e),
            Ok((pa, pb, rules)) => {
                let p = s.subrange(pa, pb);
                if name == "wait"@ {
                    match within(unsigned_value(s, pa, pb), 0, u64::MAX as int) {
                        Some(v) => Ok(TaskModel::Wait(v as u64, rules)),
                        None => Err(
                            quoted("Invalid seconds value '"@, p, "' in wait("@) + p + ")"@,
                        ),
                    }
                } else if name == "interval"@ {
                    match within(unsigned_value(s, pa, pb), 0, u64::MAX as int) {
                        Some(v) => Ok(TaskModel::Interval(v as u64, rules)),
                        None => Err(
                            quoted("Invalid seconds value '"@, p, "' in interval("@) + p + ")"@,
                        ),
                    }
                } else if name == "at"@ {
                    match hour_minute_value(p) {
                        Some(t) => Ok(TaskModel::At(t, rules)),
                        None => Err(
                            quoted("Invalid time format '"@, p, "' in at("@) + p
                                + "). Expected format: HH:MM"@,
                        ),
                    }
                } else if name == "once"@ {
                    match offset_date_time_text_value(p) {
                        Some(d) => Ok(TaskModel::Once(d, rules)),
                        None => Err(
                            quoted("Invalid datetime format '"@, p, "' in once("@) + p
                                + "). Expected format: YYYY-MM-DD HH:MM:SS +HH"@,
                        ),
                    }
                } else {
                    Err(
                        quoted(
                            "Unknown task type '"@,
                            name,
                            "'. Supported types: wait, interval, at, once"@,
                        ),
                    )
                }
            },
        }
    }
}

/// Every rule of the list is valid.
pub open spec fn rules_wf(v: Seq<Skip>) -> bool {
    forall|i: int| 0 <= i < v.len() ==> (#[trigger] v[i]).wf()
}

/// Relies on time::Time::parse with the description `[hour]:[minute]`: exactly two digits,
/// a colon and two digits, an hour below 24, a minute below 60, and nothing after.
#[verifier::external_body]
fn parse_hour_minute(text: &str) -> (r: Option<Time>)
    ensures
        r == hour_minute_value(text@),
{
    let format = time::format_description::parse("[hour]:[minute]").unwrap();
    time::Time::parse(text, &format).ok().map(|t| Time {
        hour: t.hour(),
        minute: t.minute(),
        second: t.second(),
        nanosecond: t.nanosecond(),
    })
}

/// Relies on time::OffsetDateTime::parse with the description
/// `[year]-[month]-[day] [hour]:[minute]:[second] [offset_hour sign:mandatory]`; what it
/// returns is a valid date and time at a valid offset.
#[verifier::external_body]
fn parse_offset_date_time(text: &str) -> (r: Option<Fields>)
    ensures
        r is Some <==> offset_date_time_text_value(text@) is Some,
        r matches Some(f) ==> offset_date_time_text_value(text@) == Some(fields_value(f))
            && fields_value(f).wf(),
{
    let format = "[year]-[month]-[day] [hour]:[minute]:[second] [offset_hour sign:mandatory]";
    let n = time::OffsetDateTime::parse(text, &time::format_description::parse(format).unwrap());
    let n = n.ok()?;
    let (h, m, s, ns) = n.to_hms_nano();
    Some((n.year(), n.month() as u8, n.day(), h, m, s, ns, n.offset().whole_seconds()))
}

/// `before`, then `s[lo..hi]`, then `after`.
fn message(before: &str, s: &str, lo: usize, hi: usize, after: &str) -> (r: String)
    requires
        lo <= hi <= s@.len(),
    ensures
        r@ == quoted(before@, s@.subrange(lo as int, hi as int), after@),
{
    let mut m = String::from_str(before);
    m.append(s.substring_char(lo, hi));
    m.append(after);
    m
}

/// `before`, `s[lo..hi]`, `middle`, `s[lo..hi]` again, then `after`.
fn message_twice(
    before: &str,
    s: &str,
    lo: usize,
    hi: usize,
    middle: &str,
    after: &str,
) -> (r: String)
    requires
        lo <= hi <= s@.len(),
    ensures
        r@ == quoted(before@, s@.subrange(lo as int, hi as int), middle@) + s@.subrange(
            lo as int,
            hi as int,
        ) + after@,
{
    let mut m = message(before, s, lo, hi, middle);
    m.append(s.substring_char(lo, hi));
    m.append(after);
    m
}

/// `v` in decimal, with a `-` where it is negative.
fn signed_decimal_string(v: i32) -> (r: String)
    ensures
        r@ == signed_decimal(v as int),
{
    if v < 0 {
        let digits = decimal_string((0 - (v as i64)) as u64);
        String::from_str("-").concat(digits.as_str())
    } else {
        decimal_string(v as u64)
    }
}

/// Whether `s[lo..hi]` is the word `w`.
fn word_is(s: &str, lo: usize, hi: usize, w: &str) -> (r: bool)
    requires
        lo <= hi <= s@.len(),
    ensures
        r == (s@.subrange(lo as int, hi as int) == w@),
{
    let n = w.unicode_len();
    if hi - lo != n {
        assert(s@.subrange(lo as int, hi as int).len() != w@.len());
        return false;
    }
    let mut i: usize = 0;
    while i < n
        invariant
            lo <= hi <= s@.len(),
            hi - lo == n,
            n == w@.len(),
            0 <= i <= n,
            forall|j: int| 0 <= j < i ==> s@[lo + j] == w@[j],
        decreases n - i,
    {
        if s.get_char(lo + i) != w.get_char(i) {
            assert(s@.subrange(lo as int, hi as int)[i as int] != w@[i as int]);
            return false;
        }
        i = i + 1;
    }
    assert(s@.subrange(lo as int, hi as int) =~= w@);
    true
}

/// The date that `s[lo..hi]` writes as `Y-M-D`.
fn parse_date_text(s: &str, lo: usize, hi: usize) -> (r: Result<Date, String>)
    requires
        lo <= hi <= s@.len(),
    ensures
        r is Ok <==> date_result(s@, lo as int, hi as int) is Ok,
        r matches Ok(d) ==> date_result(s@, lo as int, hi as int)->Ok_0 == d && d.wf(),
        r matches Err(e) ==> date_result(s@, lo as int, hi as int)->Err_0 == e@,
{
    let d1 = find_char_exec(s, '-', lo, hi);
    let d2 = if d1 < hi {
        find_char_exec(s, '-', d1 + 1, hi)
    } else {
        hi
    };
    if d1 >= hi || d2 >= hi || find_char_exec(s, '-', d2 + 1, hi) != hi {
        return Err(message("Invalid date format: '", s, lo, hi, "'. Expected 'YYYY-MM-DD'"));
    }
    let y = match parse_i32(s, lo, d1) {
        Some(y) => y,
        None => {
            return Err(message("Invalid year: '", s, lo, d1, "'"));
        },
    };
    let m = match parse_unsigned(s, d1 + 1, d2, 255) {
        Some(m) => m as u8,
        None => {
            return Err(message("Invalid month: '", s, d1 + 1, d2, "'"));
        },
    };
    let d = match parse_unsigned(s, d2 + 1, hi, 255) {
        Some(d) => d as u8,
        None => {
            return Err(message("Invalid day: '", s, d2 + 1, hi, "'"));
        },
    };
    if m < 1 || m > 12 {
        let digits = decimal_string(m as u64);
        return Err(String::from_str("Invalid month: ").concat(digits.as_str()));
    }
    match Date::new(y, m, d) {
        Some(date) => Ok(date),
        None => {
            let year = signed_decimal_string(y);
            let month = decimal_string(m as u64);
            let day = decimal_string(d as u64);
            Err(
                String::from_str("Invalid date: ").concat(year.as_str()).concat("-").concat(
                    month.as_str(),
                ).concat("-").concat(day.as_str()),
            )
        },
    }
}

/// The rule that `s[lo..hi]` writes as `HH:MM` or `HH:MM..HH:MM`.
fn parse_time_rule(s: &str, lo: usize, hi: usize) -> (r: Result<Skip, String>)
    requires
        lo <= hi <= s@.len(),
    ensures
        r is Ok <==> time_result(s@, lo as int, hi as int) is Ok,
        r matches Ok(k) ==> time_result(s@, lo as int, hi as int)->Ok_0 == k@ && k.wf(),
        r matches Err(e) ==> time_result(s@, lo as int, hi as int)->Err_0 == e@,
{
    let p = find_two_dots_exec(s, lo, hi);
    if p < hi {
        let a = match parse_hour_minute(s.substring_char(lo, p)) {
            Some(a) => a,
            None => {
                return Err(message("Invalid start time: '", s, lo, p, "'"));
            },
        };
        match parse_hour_minute(s.substring_char(p + 2, hi)) {
            Some(b) => Ok(Skip::TimeRange(a, b)),
            None => Err(message("Invalid end time: '", s, p + 2, hi, "'")),
        }
    } else {
        match parse_hour_minute(s.substring_char(lo, hi)) {
            Some(t) => Ok(Skip::Time(t)),
            None => Err(message("Invalid time: '", s, lo, hi, "'")),
        }
    }
}

/// The rule that `s[lo..hi]` writes.
fn parse_single_skip(s: &str, lo: usize, hi: usize) -> (r: Result<Skip, String>)
    requires
        lo <= hi <= s@.len(),
    ensures
        r is Ok <==> skip_rule_result(s@, lo as int, hi as int) is Ok,
        r matches Ok(k) ==> skip_rule_result(s@, lo as int, hi as int)->Ok_0 == k@ && k.wf(),
        r matches Err(e) ==> skip_rule_result(s@, lo as int, hi as int)->Err_0 == e@,
{
    let a = skip_ws_exec(s, lo, hi);
    let b = trim_end_exec(s, a, hi);
    if a == b {
        return Err(String::from_str("Empty skip condition"));
    }
    let w1 = find_ws_exec(s, a, b);
    let c = skip_ws_exec(s, w1, b);
    let two_words = c < b && find_ws_exec(s, c, b) == b;
    if word_is(s, a, w1, "weekday") {
        if !two_words {
            return Err(message("Invalid weekday format: '", s, a, b, "'. Expected 'weekday N'"));
        }
        match parse_unsigned(s, c, b, 255) {
            None => Err(message("Invalid weekday number: '", s, c, b, "'")),
            Some(day) => {
                if day < 1 || day > 7 {
                    let digits = decimal_string(day);
                    Err(String::from_str("Weekday must be between 1-7, got: ").concat(digits.as_str()))
                } else {
                    let days = vec![day as u8];
                    assert(days@ =~= seq![day as u8]);
                    Ok(Skip::Day(days))
                }
            },
        }
    } else if word_is(s, a, w1, "date") {
        if !two_words {
            return Err(
                message("Invalid date format: '", s, a, b, "'. Expected 'date YYYY-MM-DD'"),
            );
        }
        match parse_date_text(s, c, b) {
            Ok(d) => Ok(Skip::Date(d)),
            Err(e) => Err(e),
        }
    } else if word_is(s, a, w1, "time") {
        if !two_words {
            return Err(
                message("Invalid time format: '", s, a, b, "'. Expected 'time HH:MM..HH:MM'"),
            );
        }
        parse_time_rule(s, c, b)
    } else {
        Err(
            message(
                "Unknown skip type: '",
                s,
                a,
                w1,
                "'. Supported types: weekday, date, time",
            ),
        )
    }
}

/// The value of rules that `out` holds.
pub open spec fn rules_view(out: Seq<Skip>) -> Seq<SkipModel> {
    out.map_values(|k: Skip| k@)
}

/// `x` put before the rules of `rest`, where `rest` holds rules.
pub open spec fn prepend(x: Seq<SkipModel>, rest: Result<Seq<SkipModel>, Seq<char>>) -> Result<
    Seq<SkipModel>,
    Seq<char>,
> {
    match rest {
        Ok(t) => Ok(x + t),
        Err(e) => Err(e),
    }
}

/// The rules of the comma-separated pieces of `s[a..b]`.
fn parse_pieces(s: &str, a: usize, b: usize) -> (r: Result<Vec<Skip>, String>)
    requires
        a <= b <= s@.len(),
    ensures
        r is Ok <==> pieces_result(s@, a as int, b as int) is Ok,
        r matches Ok(v) ==> pieces_result(s@, a as int, b as int)->Ok_0 == rules_view(v@)
            && rules_wf(v@),
        r matches Err(e) ==> pieces_result(s@, a as int, b as int)->Err_0 == e@,
{
    let mut out: Vec<Skip> = Vec::new();
    let mut p = a;
    assert(rules_view(out@) =~= Seq::<SkipModel>::empty());
    assert(prepend(Seq::<SkipModel>::empty(), pieces_result(s@, a as int, b as int))
        =~= pieces_result(s@, a as int, b as int)) by {
        if let Ok(t) = pieces_result(s@, a as int, b as int) {
            assert(Seq::<SkipModel>::empty() + t =~= t);
        }
    }
    loop
        invariant
            a <= p <= b <= s@.len(),
            rules_wf(out@),
            pieces_result(s@, a as int, b as int) == prepend(
                rules_view(out@),
                pieces_result(s@, p as int, b as int),
            ),
        decreases b - p,
    {
        let c = find_char_exec(s, ',', p, b);
        let pa = skip_ws_exec(s, p, c);
        let pb = trim_end_exec(s, pa, c);
        let ghost before = out@;
        if pa != pb {
            match parse_single_skip(s, p, c) {
                Ok(k) => {
                    out.push(k);
                },
                Err(e) => {
                    return Err(e);
                },
            }
        }
        let ghost h = if pa != pb {
            seq![skip_rule_result(s@, p as int, c as int)->Ok_0]
        } else {
            Seq::<SkipModel>::empty()
        };
        assert(rules_view(out@) =~= rules_view(before) + h);
        if c < b {
            proof {
                let rest = pieces_result(s@, c + 1, b as int);
                if let Ok(t) = rest {
                    assert(rules_view(before) + (h + t) =~= rules_view(out@) + t);
                }
            }
            p = c + 1;
        } else {
            return Ok(out);
        }
    }
}

/// The rules that a bracketed list's inside `s[lo..hi]` writes.
fn parse_skip_list(s: &str, lo: usize, hi: usize) -> (r: Result<Vec<Skip>, String>)
    requires
        lo <= hi <= s@.len(),
    ensures
        r is Ok <==> list_result(s@, lo as int, hi as int) is Ok,
        r matches Ok(v) ==> list_result(s@, lo as int, hi as int)->Ok_0 == rules_view(v@)
            && rules_wf(v@),
        r matches Err(e) ==> list_result(s@, lo as int, hi as int)->Err_0 == e@,
{
    let a = skip_ws_exec(s, lo, hi);
    let b = trim_end_exec(s, a, hi);
    if a == b {
        let out: Vec<Skip> = Vec::new();
        assert(rules_view(out@) =~= Seq::<SkipModel>::empty());
        Ok(out)
    } else {
        parse_pieces(s, a, b)
    }
}

/// The rules that `s[lo..hi]` writes: one rule, or a bracketed list.
fn parse_skip_conditions(s: &str, lo: usize, hi: usize) -> (r: Result<Vec<Skip>, String>)
    requires
        lo <= hi <= s@.len(),
    ensures
        r is Ok <==> skip_conditions_result(s@, lo as int, hi as int) is Ok,
        r matches Ok(v) ==> skip_conditions_result(s@, lo as int, hi as int)->Ok_0 == rules_view(
            v@,
        ) && rules_wf(v@),
        r matches Err(e) ==> skip_conditions_result(s@, lo as int, hi as int)->Err_0 == e@,
{
    let a = skip_ws_exec(s, lo, hi);
    let b = trim_end_exec(s, a, hi);
    if b - a >= 2 && s.get_char(a) == '[' && s.get_char(b - 1) == ']' {
        parse_skip_list(s, a + 1, b - 1)
    } else {
        match parse_single_skip(s, a, b) {
            Ok(k) => {
                let out = vec![k];
                assert(rules_view(out@) =~= seq![k@]);
                Ok(out)
            },
            Err(e) => Err(e),
        }
    }
}

/// The bounds of the main argument in `s[a..b]`, and the rules after its first comma.
fn parse_arguments(s: &str, a: usize, b: usize) -> (r: Result<
    (usize, usize, Option<Vec<Skip>>),
    String,
>)
    requires
        a <= b <= s@.len(),
    ensures
        r is Ok <==> arguments_result(s@, a as int, b as int) is Ok,
        r matches Ok((pa, pb, rules)) ==> {
            let v = arguments_result(s@, a as int, b as int)->Ok_0;
            &&& pa == v.0
            &&& pb == v.1
            &&& pa <= pb <= b
            &&& match rules {
                Some(list) => v.2 == Some(rules_view(list@)) && rules_wf(list@),
                None => v.2 is None,
            }
        },
        r matches Err(e) ==> arguments_result(s@, a as int, b as int)->Err_0 == e@,
{
    let comma = find_char_exec(s, ',', a, b);
    if comma < b {
        let pa = skip_ws_exec(s, a, comma);
        let pb = trim_end_exec(s, pa, comma);
        match parse_skip_conditions(s, comma + 1, b) {
            Ok(list) => Ok((pa, pb, Some(list))),
            Err(e) => Err(e),
        }
    } else {
        Ok((a, b, None))
    }
}

impl Task {
    /// Reads a schedule from a descriptor such as `wait(10)`, `interval(5, weekday 6)`,
    /// `at(09:30, [date 2024-12-25, time 12:00..13:00])` or
    /// `once(2024-01-01 10:00:00 +08)`; otherwise a message that names what is wrong.
    pub fn parse(text: &str) -> (r: Result<Task, String>)
        ensures
            r is Ok <==> task_result(text@) is Ok,
            r matches Ok(t) ==> task_result(text@)->Ok_0 == t@ && t.wf(),
            r matches Err(e) ==> task_result(text@)->Err_0 == e@,
    {
        let s = text;
        let len = s.unicode_len();
        let lo = skip_ws_exec(s, 0, len);
        let hi = trim_end_exec(s, lo, len);
        let open = find_char_exec(s, '(', lo, hi);
        if open >= hi {
            return Err(
                message(
                    "Invalid task format: '",
                    s,
                    lo,
                    hi,
                    "'. Expected format like 'wait(10)'",
                ),
            );
        }
        let close = match rfind_char_exec(s, ')', lo, hi) {
            Some(c) => c,
            None => {
                return Err(message("Missing closing parenthesis in: '", s, lo, hi, "'"));
            },
        };
        if close <= open {
            return Err(message("Invalid parentheses in: '", s, lo, hi, "'"));
        }
        let na = skip_ws_exec(s, lo, open);
        let nb = trim_end_exec(s, na, open);
        let aa = skip_ws_exec(s, open + 1, close);
        let ab = trim_end_exec(s, aa, close);
        let (pa, pb, rules) = match parse_arguments(s, aa, ab) {
            Ok(v) => v,
            Err(e) => {
                return Err(e);
            },
        };
        if word_is(s, na, nb, "wait") {
            match parse_unsigned(s, pa, pb, u64::MAX) {
                Some(v) => Ok(Task::Wait(v, rules)),
                None => Err(message_twice("Invalid seconds value '", s, pa, pb, "' in wait(", ")")),
            }
        } else if word_is(s, na, nb, "interval") {
            match parse_unsigned(s, pa, pb, u64::MAX) {
                Some(v) => Ok(Task::Interval(v, rules)),
                None => Err(
                    message_twice("Invalid seconds value '", s, pa, pb, "' in interval(", ")"),
                ),
            }
        } else if word_is(s, na, nb, "at") {
            match parse_hour_minute(s.substring_char(pa, pb)) {
                Some(t) => Ok(Task::At(t, rules)),
                None => Err(
                    message_twice(
                        "Invalid time format '",
                        s,
                        pa,
                        pb,
                        "' in at(",
                        "). Expected format: HH:MM",
                    ),
                ),
            }
        } else if word_is(s, na, nb, "once") {
            match parse_offset_date_time(s.substring_char(pa, pb)) {
                Some(f) => Ok(Task::Once(from_fields(f), rules)),
                None => Err(
                    message_twice(
                        "Invalid datetime format '",
                        s,
                        pa,
                        pb,
                        "' in once(",
                        "). Expected format: YYYY-MM-DD HH:MM:SS +HH",
                    ),
                ),
            }
        } else {
            Err(
                message(
                    "Unknown task type '",
                    s,
                    na,
                    nb,
                    "'. Supported types: wait, interval, at, once",
                ),
            )
        }
    }
}

} // verus!
