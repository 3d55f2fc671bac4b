//! Calendar values read from the local clock and time zone, and the trusted
//! items through which chrono reads them.
//!
//! What the local time zone makes of an instant depends on the machine, so
//! the items that consult it promise only what holds of every outcome; the
//! verified functions take their results as arguments.

use chrono::{DateTime, Datelike, Local, MappedLocalTime, NaiveDate, NaiveDateTime, TimeZone, Timelike};
use vstd::prelude::*;
use crate::due::year_text;
use crate::text::padded_digits;

verus! {

/// The earliest year chrono represents.
pub const MIN_YEAR: i32 = -262143;

/// The latest year chrono represents.
pub const MAX_YEAR: i32 = 262142;

/// Epoch milliseconds of `-262143-01-01T00:00:00Z`, the earliest representable instant.
pub const MIN_MILLIS: i64 = -8_334_601_228_800_000;

/// Epoch milliseconds of `+262142-12-31T23:59:59.999Z`, the latest representable instant.
pub const MAX_MILLIS: i64 = 8_210_266_876_799_999;

/// Milliseconds in a day; a time zone's offset from UTC is less than this.
pub const DAY_MILLIS: i64 = 86_400_000;

/// A calendar date of the proleptic Gregorian calendar.
#[derive(Debug, Clone, Copy, PartialEq, Eq, Structural)]
pub struct CivilDate {
    pub year: i32,
    pub month: u32,
    pub day: u32,
}

/// A local date and time of day.
#[derive(Debug, Clone, Copy, PartialEq, Eq, Structural)]
pub struct LocalDateTime {
    pub date: CivilDate,
    pub hour: u32,
    pub minute: u32,
    pub second: u32,
    pub nanosecond: u32,
}

/// A reading of the local clock: the instant (whole seconds since the epoch
/// and the nanoseconds past them) and the local date at that instant.
#[derive(Debug, Clone, Copy, PartialEq, Eq, Structural)]
pub struct LocalNow {
    pub secs: i64,
    pub nanos: u32,
    pub today: CivilDate,
}

/// The instants that a local date and time names in the local time zone.
#[derive(Debug, Clone, Copy, PartialEq, Eq, Structural)]
pub enum LocalMapping {
    /// Exactly one instant.
    Single(i64),
    /// Two instants (the local time falls in a fold), in the order chrono lists them.
    Ambiguous(i64, i64),
    /// No instant (the local time falls in a gap, or could not be resolved).
    Gap,
}

pub open spec fn is_leap_year(y: int) -> bool {
    (y % 4 == 0 && y % 100 != 0) || y % 400 == 0
}

pub open spec fn days_in_month(y: int, m: int) -> int {
    if m == 2 {
        if is_leap_year(y) { 29 } else { 28 }
    } else if m == 4 || m == 6 || m == 9 || m == 11 {
        30
    } else {
        31
    }
}

/// `d` is a date that chrono can represent.
pub open spec fn valid_date(d: CivilDate) -> bool {
    &&& MIN_YEAR <= d.year <= MAX_YEAR
    &&& 1 <= d.month <= 12
    &&& 1 <= d.day <= days_in_month(d.year as int, d.month as int)
}

/// `l` is a date and time of day that chrono can represent (leap seconds aside).
pub open spec fn valid_local(l: LocalDateTime) -> bool {
    &&& valid_date(l.date)
    &&& l.hour < 24
    &&& l.minute < 60
    &&& l.second < 60
    &&& l.nanosecond < 1_000_000_000
}

/// The calendar date after `d`, if it is representable.
pub open spec fn next_civil_date(d: CivilDate) -> Option<CivilDate> {
    if (d.day as int) < days_in_month(d.year as int, d.month as int) {
        Some(CivilDate { year: d.year, month: d.month, day: (d.day + 1) as u32 })
    } else if d.month < 12 {
        Some(CivilDate { year: d.year, month: (d.month + 1) as u32, day: 1 })
    } else if d.year < MAX_YEAR {
        Some(CivilDate { year: (d.year + 1) as i32, month: 1, day: 1 })
    } else {
        None
    }
}

/// `millis` names an instant that chrono can represent.
pub open spec fn millis_in_range(millis: int) -> bool {
    MIN_MILLIS <= millis <= MAX_MILLIS
}

/// `millis` is representable but within a day of either end of the range,
/// where its local date and time could fall outside it.
pub open spec fn near_range_edge(millis: int) -> bool {
    &&& millis_in_range(millis)
    &&& (millis < MIN_MILLIS + DAY_MILLIS || millis > MAX_MILLIS - DAY_MILLIS)
}

/// Whether `millis` is within a day of either end of the representable range.
pub fn near_range_edge_millis(millis: i64) -> (r: bool)
    ensures
        r == near_range_edge(millis as int),
{
    MIN_MILLIS <= millis && millis <= MAX_MILLIS && (millis < MIN_MILLIS + DAY_MILLIS || millis
        > MAX_MILLIS - DAY_MILLIS)
}

pub open spec fn mapping_in_range(m: LocalMapping) -> bool {
    match m {
        LocalMapping::Single(a) => millis_in_range(a as int),
        LocalMapping::Ambiguous(a, b) => millis_in_range(a as int) && millis_in_range(b as int),
        LocalMapping::Gap => true,
    }
}

/// The first instant of a mapping (chrono's `earliest`).
pub open spec fn earliest(m: LocalMapping) -> Option<i64> {
    match m {
        LocalMapping::Single(a) => Some(a),
        LocalMapping::Ambiguous(a, _) => Some(a),
        LocalMapping::Gap => None,
    }
}

pub fn earliest_millis(m: LocalMapping) -> (r: Option<i64>)
    ensures
        r == earliest(m),
{
    match m {
        LocalMapping::Single(a) => Some(a),
        LocalMapping::Ambiguous(a, _) => Some(a),
        LocalMapping::Gap => None,
    }
}

/// The epoch milliseconds of a clock reading (the instant rounded down to the millisecond).
pub open spec fn now_millis(now: LocalNow) -> int {
    now.secs * 1000 + now.nanos / 1_000_000
}

/// `l` is a date and time of day as chrono holds one: a valid date, and a
/// second of `60` held as second `59` with a nanosecond count of a second or more.
pub open spec fn valid_naive(l: LocalDateTime) -> bool {
    &&& valid_date(l.date)
    &&& l.hour < 24
    &&& l.minute < 60
    &&& l.second < 60
    &&& (l.nanosecond < 1_000_000_000 || (l.second == 59 && l.nanosecond < 2_000_000_000))
}

/// Local midnight of `d`.
pub open spec fn midnight(d: CivilDate) -> LocalDateTime {
    LocalDateTime { date: d, hour: 0, minute: 0, second: 0, nanosecond: 0 }
}

/// The number of days from 1970-01-01 to `d` in the proleptic Gregorian
/// calendar (negative before it). Years are counted from March, so that the
/// leap day ends a year, in eras of 400 years of 146097 days.
pub open spec fn days_from_civil(d: CivilDate) -> int {
    let y: int = if d.month <= 2 { d.year - 1 } else { d.year as int };
    let era = y / 400;
    let yoe = y - era * 400;
    let mp: int = if d.month > 2 { d.month - 3 } else { d.month + 9 };
    let doy = (153 * mp + 2) / 5 + d.day - 1;
    let doe = yoe * 365 + yoe / 4 - yoe / 100 + doy;
    era * 146097 + doe - 719468
}

/// The milliseconds since the epoch that the wall time `l` reads as in UTC
/// (fractions of a millisecond dropped).
pub open spec fn local_millis(l: LocalDateTime) -> int {
    days_from_civil(l.date) * 86_400_000 + l.hour * 3_600_000 + l.minute * 60_000 + l.second * 1000
        + l.nanosecond / 1_000_000
}

/// The wall time `l` is the instant `m` seen at an offset of `off` seconds
/// from UTC; a time zone's offset is less than a day either way.
pub open spec fn at_offset(l: LocalDateTime, m: int, off: int) -> bool {
    &&& -86_400 < off < 86_400
    &&& local_millis(l) == m + off * 1000
}

/// The wall time `l` is the instant `m` seen at some offset from UTC.
pub open spec fn is_local_time(l: LocalDateTime, m: int) -> bool {
    exists|off: int| #[trigger] at_offset(l, m, off)
}

/// `l` is how the instant `m` reads on a clock at some offset from UTC, to
/// the millisecond.
pub open spec fn is_local_reading(m: int, l: LocalDateTime) -> bool {
    &&& valid_local(l)
    &&& l.nanosecond % 1_000_000 == 0
    &&& is_local_time(l, m)
}

/// The day `d` at an offset of `off` seconds from UTC holds the second `secs`.
pub open spec fn date_at_offset(d: CivilDate, secs: int, off: int) -> bool {
    &&& -86_400 < off < 86_400
    &&& days_from_civil(d) * 86_400 <= secs + off < days_from_civil(d) * 86_400 + 86_400
}

/// A reading of the clock: the sub-second part is below a second, the
/// instant is representable, and `today` is the date that holds the instant at
/// some offset from UTC.
pub open spec fn is_clock_reading(now: LocalNow) -> bool {
    &&& now.nanos < 1_000_000_000
    &&& valid_date(now.today)
    &&& millis_in_range(now_millis(now))
    &&& exists|off: int| #[trigger] date_at_offset(now.today, now.secs as int, off)
}

/// The year a date belongs to when years are counted from March.
spec fn march_year(d: CivilDate) -> int {
    if d.month <= 2 { d.year - 1 } else { d.year as int }
}

/// The days from 1 March of its March-based year to `d`.
spec fn march_day(d: CivilDate) -> int {
    let mp: int = if d.month > 2 { d.month - 3 } else { d.month + 9 };
    (153 * mp + 2) / 5 + d.day - 1
}

/// The days from the start of an era to 1 March of its year `yoe`.
spec fn year_start(yoe: int) -> int {
    yoe * 365 + yoe / 4 - yoe / 100
}

/// A date is fixed by its March-based year and its day in that year; the
/// day is at most 364, or 365 on a leap day.
proof fn lemma_march_day(a: CivilDate, b: CivilDate)
    requires
        valid_date(a),
        valid_date(b),
    ensures
        0 <= march_day(a) <= 364 || (march_day(a) == 365 && is_leap_year(march_year(a) + 1)),
        march_year(a) == march_year(b) && march_day(a) == march_day(b) ==> a == b,
{
}

/// The March-based years of an era start 365 days apart, or 366 before a leap day.
proof fn lemma_year_start_step(yoe: int)
    requires
        0 <= yoe < 399,
    ensures
        year_start(yoe + 1) == year_start(yoe) + 365 + if (yoe + 1) % 4 == 0 && (yoe + 1) % 100 != 0 { 1int } else { 0int },
{
}

proof fn lemma_year_start_monotone(a: int, b: int)
    requires
        0 <= a <= b,
    ensures
        year_start(a) <= year_start(b),
{
    assert(a / 4 <= b / 4) by (nonlinear_arith) requires a <= b;
    assert(b / 100 - a / 100 <= b - a) by (nonlinear_arith) requires 0 <= a <= b;
}

/// Distinct valid dates are distinct days.
pub proof fn lemma_days_from_civil_injective(a: CivilDate, b: CivilDate)
    requires
        valid_date(a),
        valid_date(b),
        days_from_civil(a) == days_from_civil(b),
    ensures
        a == b,
{
    let ya = march_year(a);
    let yb = march_year(b);
    let ea = ya / 400;
    let eb = yb / 400;
    let oa = ya - ea * 400;
    let ob = yb - eb * 400;
    lemma_march_day(a, b);
    lemma_march_day(b, a);
    assert(0 <= oa < 400 && 0 <= ob < 400);
    assert((ya + 1) % 4 == (oa + 1) % 4 && (ya + 1) % 100 == (oa + 1) % 100 && (ya + 1) % 400 == (oa + 1) % 400);
    assert((yb + 1) % 4 == (ob + 1) % 4 && (yb + 1) % 100 == (ob + 1) % 100 && (yb + 1) % 400 == (ob + 1) % 400);
    let da = year_start(oa) + march_day(a);
    let db = year_start(ob) + march_day(b);
    assert(days_from_civil(a) == ea * 146097 + da - 719468);
    assert(days_from_civil(b) == eb * 146097 + db - 719468);
    lemma_year_start_monotone(oa, 399);
    lemma_year_start_monotone(ob, 399);
    assert(year_start(399) == 145731);
    assert(0 <= da <= 146096 && 0 <= db <= 146096);
    assert(ea == eb);
    assert(da == db);
    if oa < ob {
        lemma_year_start_step(oa);
        lemma_year_start_monotone(oa + 1, ob);
        assert(false);
    } else if ob < oa {
        lemma_year_start_step(ob);
        lemma_year_start_monotone(ob + 1, oa);
        assert(false);
    }
}

/// Two wall times that one instant reads as at one offset are the same, to
/// the millisecond: reading an instant back at the offset that resolved it
/// gives the wall time it was resolved from.
pub proof fn lemma_same_offset_same_wall_time(a: LocalDateTime, b: LocalDateTime, m: int, off: int)
    requires
        valid_local(a),
        valid_local(b),
        a.nanosecond % 1_000_000 == 0,
        b.nanosecond % 1_000_000 == 0,
        at_offset(a, m, off),
        at_offset(b, m, off),
    ensures
        a == b,
{
    let ta = a.hour * 3_600_000 + a.minute * 60_000 + a.second * 1000 + a.nanosecond / 1_000_000;
    let tb = b.hour * 3_600_000 + b.minute * 60_000 + b.second * 1000 + b.nanosecond / 1_000_000;
    assert(0 <= ta < 86_400_000 && 0 <= tb < 86_400_000);
    assert(days_from_civil(a.date) == days_from_civil(b.date));
    lemma_days_from_civil_injective(a.date, b.date);
    assert(a.nanosecond == 1_000_000 * (a.nanosecond / 1_000_000));
    assert(b.nanosecond == 1_000_000 * (b.nanosecond / 1_000_000));
}

/// The date and time that chrono's `NaiveDateTime::parse_from_str` reads from
/// a text under a format string.
pub uninterp spec fn parsed_datetime(text: Seq<char>, fmt: Seq<char>) -> Option<LocalDateTime>;

/// The date that chrono's `NaiveDate::parse_from_str` reads from a text under a format string.
pub uninterp spec fn parsed_date(text: Seq<char>, fmt: Seq<char>) -> Option<CivilDate>;

/// Reads the local clock through `chrono::Local::now`. The contract states
/// chrono's own guarantees: the sub-second part is below a second, the
/// instant is representable, and the local date is the date of the instant
/// at the offset of the local time zone, which is less than a day (chrono's
/// `FixedOffset`). Which offset that is depends on the machine and is not stated.
#[verifier::external_body]
pub(crate) fn local_now() -> (r: LocalNow)
    ensures
        is_clock_reading(r),
{
    let now = Local::now();
    let d = now.date_naive();
    LocalNow {
        secs: now.timestamp(),
        nanos: now.timestamp_subsec_nanos(),
        today: CivilDate { year: d.year(), month: d.month(), day: d.day() },
    }
}

/// The local date and time of the instant `millis`, through chrono's
/// `DateTime::from_timestamp_millis`, `with_timezone(&Local)` and `naive_local`.
/// The contract states that the instant is found exactly when it is
/// representable, and that the local value is the instant read at an offset
/// of less than a day (chrono adds the zone's `FixedOffset` to the UTC date
/// and time, and keeps the milliseconds). Which offset the machine's time
/// zone gives is not stated.
#[verifier::external_body]
pub(crate) fn local_datetime_of_millis(millis: i64) -> (r: Option<LocalDateTime>)
    requires
        !near_range_edge(millis as int),
    ensures
        r is Some <==> millis_in_range(millis as int),
        r matches Some(l) ==> is_local_reading(millis as int, l),
{
    match DateTime::from_timestamp_millis(millis) {
        Some(dt) => {
            let l = dt.with_timezone(&Local).naive_local();
            Some(LocalDateTime {
                date: CivilDate { year: l.year(), month: l.month(), day: l.day() },
                hour: l.hour(),
                minute: l.minute(),
                second: l.second(),
                nanosecond: l.nanosecond(),
            })
        },
        None => None,
    }
}

/// The instants of a local date and time, through chrono's
/// `Local.from_local_datetime` (each instant as `timestamp_millis`). The
/// contract states that each instant reads as `l` at an offset of less than
/// a day (chrono subtracts the zone's `FixedOffset` and keeps the fraction of
/// the second), and that it is representable unless `l` is a leap second: on
/// the last representable day a leap second can give an instant past the
/// range. Whether the local time falls in a gap or a fold, at which offsets,
/// and in which order chrono lists the two instants of a fold (the Unix zone
/// reader lists the smaller offset first) depend on the machine's time zone
/// and are not stated.
#[verifier::external_body]
pub(crate) fn local_mapping_of(l: LocalDateTime) -> (r: LocalMapping)
    requires
        valid_naive(l),
    ensures
        l.nanosecond < 1_000_000_000 ==> mapping_in_range(r),
        r matches LocalMapping::Single(a) ==> is_local_time(l, a as int),
        r matches LocalMapping::Ambiguous(a, b) ==> is_local_time(l, a as int) && is_local_time(l, b as int),
{
    match NaiveDate::from_ymd_opt(l.date.year, l.date.month, l.date.day) {
        Some(d) => match d.and_hms_nano_opt(l.hour, l.minute, l.second, l.nanosecond) {
            Some(ndt) => match Local.from_local_datetime(&ndt) {
                MappedLocalTime::Single(a) => LocalMapping::Single(a.timestamp_millis()),
                MappedLocalTime::Ambiguous(a, b) => LocalMapping::Ambiguous(a.timestamp_millis(), b.timestamp_millis()),
                MappedLocalTime::None => LocalMapping::Gap,
            },
            None => LocalMapping::Gap,
        },
        None => LocalMapping::Gap,
    }
}

/// Whether `y` is a leap year.
fn leap_year(y: i32) -> (r: bool)
    requires
        MIN_YEAR <= y,
    ensures
        r == is_leap_year(y as int),
{
    let z: i64 = y as i64 + 262_400;
    assert(z % 4 == y % 4 && z % 100 == y % 100 && z % 400 == y % 400);
    (z % 4 == 0 && z % 100 != 0) || z % 400 == 0
}

/// The number of days in month `m` of year `y`.
fn month_length(y: i32, m: u32) -> (r: u32)
    requires
        MIN_YEAR <= y,
    ensures
        r == days_in_month(y as int, m as int),
{
    if m == 2 {
        if leap_year(y) { 29 } else { 28 }
    } else if m == 4 || m == 6 || m == 9 || m == 11 {
        30
    } else {
        31
    }
}

/// The next calendar date, or none after the last representable one.
pub fn next_date(date: CivilDate) -> (r: Option<CivilDate>)
    requires
        valid_date(date),
    ensures
        r == next_civil_date(date),
{
    if date.day < month_length(date.year, date.month) {
        Some(CivilDate { year: date.year, month: date.month, day: date.day + 1 })
    } else if date.month < 12 {
        Some(CivilDate { year: date.year, month: date.month + 1, day: 1 })
    } else if date.year < MAX_YEAR {
        Some(CivilDate { year: date.year + 1, month: 1, day: 1 })
    } else {
        None
    }
}

/// A date after a valid date is valid.
pub proof fn lemma_next_date_valid(d: CivilDate)
    requires
        valid_date(d),
    ensures
        next_civil_date(d) matches Some(n) ==> valid_date(n),
{
}

/// The date `k` days after `d`, if it is representable.
pub open spec fn plus_days(d: CivilDate, k: nat) -> Option<CivilDate>
    decreases k,
{
    if k == 0 {
        Some(d)
    } else {
        match next_civil_date(d) {
            Some(n) => plus_days(n, (k - 1) as nat),
            None => None,
        }
    }
}

/// A date some days after a valid date is valid.
pub proof fn lemma_plus_days_valid(d: CivilDate, k: nat)
    requires
        valid_date(d),
    ensures
        plus_days(d, k) matches Some(e) ==> valid_date(e),
    decreases k,
{
    if k > 0 {
        if let Some(n) = next_civil_date(d) {
            lemma_plus_days_valid(n, (k - 1) as nat);
        }
    }
}

/// The date `k` days after `d`.
pub fn add_days(d: CivilDate, k: u32) -> (r: Option<CivilDate>)
    requires
        valid_date(d),
    ensures
        r == plus_days(d, k as nat),
        r matches Some(e) ==> valid_date(e),
{
    let mut cur = d;
    let mut i: u32 = 0;
    while i < k
        invariant
            i <= k,
            valid_date(cur),
            plus_days(d, k as nat) == plus_days(cur, (k - i) as nat),
        decreases k - i,
    {
        match next_date(cur) {
            Some(n) => {
                cur = n;
                i = i + 1;
            },
            None => {
                return None;
            },
        }
    }
    proof {
        lemma_plus_days_valid(d, k as nat);
    }
    Some(cur)
}

/// chrono's `NaiveDateTime::parse_from_str`, its result named by
/// `parsed_datetime`; a parsed value is a date and time as chrono holds one.
#[verifier::external_body]
pub(crate) fn parse_naive_datetime(text: &str, fmt: &str) -> (r: Option<LocalDateTime>)
    ensures
        r == parsed_datetime(text@, fmt@),
        r matches Some(l) ==> valid_naive(l),
{
    match NaiveDateTime::parse_from_str(text, fmt) {
        Ok(l) => Some(LocalDateTime {
            date: CivilDate { year: l.year(), month: l.month(), day: l.day() },
            hour: l.hour(),
            minute: l.minute(),
            second: l.second(),
            nanosecond: l.nanosecond(),
        }),
        Err(_) => None,
    }
}

/// chrono's `NaiveDate::parse_from_str`, its result named by `parsed_date`;
/// a parsed date is a valid date.
#[verifier::external_body]
pub(crate) fn parse_naive_date(text: &str, fmt: &str) -> (r: Option<CivilDate>)
    ensures
        r == parsed_date(text@, fmt@),
        r matches Some(d) ==> valid_date(d),
{
    match NaiveDate::parse_from_str(text, fmt) {
        Ok(d) => Some(CivilDate { year: d.year(), month: d.month(), day: d.day() }),
        Err(_) => None,
    }
}


/// The short English name of the weekday `k` days after a Sunday (`Sun` to `Sat`).
pub open spec fn weekday_abbr(k: int) -> Seq<char> {
    if k == 0 {
        "Sun"@
    } else if k == 1 {
        "Mon"@
    } else if k == 2 {
        "Tue"@
    } else if k == 3 {
        "Wed"@
    } else if k == 4 {
        "Thu"@
    } else if k == 5 {
        "Fri"@
    } else {
        "Sat"@
    }
}

/// The short English name of month `m` (`Jan` to `Dec`).
pub open spec fn month_abbr(m: int) -> Seq<char> {
    if m == 1 {
        "Jan"@
    } else if m == 2 {
        "Feb"@
    } else if m == 3 {
        "Mar"@
    } else if m == 4 {
        "Apr"@
    } else if m == 5 {
        "May"@
    } else if m == 6 {
        "Jun"@
    } else if m == 7 {
        "Jul"@
    } else if m == 8 {
        "Aug"@
    } else if m == 9 {
        "Sep"@
    } else if m == 10 {
        "Oct"@
    } else if m == 11 {
        "Nov"@
    } else {
        "Dec"@
    }
}

/// The label of a date as `%a %b %d %Y` writes it (as in `Fri Jun 12 2026`):
/// the weekday (1970-01-01 was a Thursday), the month, the day in two digits
/// and the year as `%Y` writes it.
pub open spec fn date_label_text(year: i32, month: u32, day: u32) -> Seq<char> {
    let d = CivilDate { year, month, day };
    weekday_abbr((days_from_civil(d) + 4) % 7) + seq![' '] + month_abbr(month as int) + seq![' ']
        + padded_digits(day as int, 2) + seq![' '] + year_text(year as int)
}

/// chrono's `NaiveDate::format` with `%a %b %d %Y` (as in `Fri Jun 12 2026`):
/// chrono writes the English weekday and month names (the default locale),
/// the day zero-padded to two digits and the year as for `%Y`, which is what
/// `date_label_text` states.
#[verifier::external_body]
pub(crate) fn date_label(date: CivilDate) -> (r: String)
    requires
        valid_date(date),
    ensures
        r@ == date_label_text(date.year, date.month, date.day),
{
    match NaiveDate::from_ymd_opt(date.year, date.month, date.day) {
        Some(d) => d.format("%a %b %d %Y").to_string(),
        None => String::new(),
    }
}

} // verus!
