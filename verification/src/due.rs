//! Due dates: parsing of the accepted input forms, rendering, and the
//! classification of a due date against the current local time.
//!
//! Due dates are epoch milliseconds. A due date without a time of day is
//! stored at local midnight of its day (a whole-day deadline); one with a
//! time is stored at that local instant.

use vstd::prelude::*;
use crate::calendar::{
    add_days, earliest_millis, is_clock_reading, is_local_reading, is_local_time, local_datetime_of_millis,
    local_mapping_of, local_now, midnight, millis_in_range, near_range_edge, now_millis, parse_naive_date,
    parse_naive_datetime, parsed_date, parsed_datetime, plus_days, valid_date, valid_local, valid_naive,
    CivilDate, LocalDateTime, LocalNow, MAX_YEAR, MIN_YEAR,
};
use crate::text::{
    all_digits, ascii_lower_code, chars_of, decimal_value, digit_value, eq_ignore_ascii_case, is_digit, not_colon,
    padded_digits, push_padded, push_render_char, slice_eq_ignore_ascii_case, trim, trim_bounds, without_colons,
};

verus! {

/// `HH` hours and `MM` minutes read from an `HHMM` offset: the colons of `raw`
/// are dropped, three or four digits must remain, the last two are the minutes
/// (below 60) and the others the hours.
pub open spec fn spec_parse_hhmm(raw: Seq<char>) -> Option<(i64, i64)> {
    let d = raw.filter(not_colon());
    if 3 <= d.len() <= 4 && (forall|i: int| 0 <= i < d.len() ==> is_digit(#[trigger] d[i])) {
        let split = d.len() - 2;
        let hours = decimal_value(d.subrange(0, split));
        let minutes = decimal_value(d.subrange(split, d.len() as int));
        if minutes >= 60 {
            None
        } else {
            Some((hours as i64, minutes as i64))
        }
    } else {
        None
    }
}

/// `spec_parse_hhmm` on `s[lo..hi]`.
fn parse_hhmm_in(s: &Vec<char>, lo: usize, hi: usize) -> (r: Option<(i64, i64)>)
    requires
        lo <= hi <= s.len(),
    ensures
        r == spec_parse_hhmm(s@.subrange(lo as int, hi as int)),
{
    let d = without_colons(s, lo, hi);
    let n = d.len();
    if n < 3 || n > 4 {
        return None;
    }
    if !all_digits(&d, 0, n) {
        return None;
    }
    let split = n - 2;
    let h0 = digit_value(d[0]);
    let hours: u32 = if split == 1 { h0 } else { h0 * 10 + digit_value(d[1]) };
    let minutes: u32 = digit_value(d[split]) * 10 + digit_value(d[split + 1]);
    proof {
        let ds = d@;
        reveal_with_fuel(decimal_value, 3);
        assert(ds.subrange(0, 1).drop_last() =~= ds.subrange(0, 0));
        assert(ds.subrange(0, 2).drop_last() =~= ds.subrange(0, 1));
        assert(ds.subrange(split as int, split + 1).drop_last() =~= ds.subrange(split as int, split as int));
        assert(ds.subrange(split as int, n as int).drop_last() =~= ds.subrange(split as int, split + 1));
        assert(decimal_value(ds.subrange(0, split as int)) == hours);
        assert(decimal_value(ds.subrange(split as int, n as int)) == minutes);
    }
    if minutes >= 60 {
        return None;
    }
    Some((hours as i64, minutes as i64))
}

/// Parses an `HHMM` (or `HH:MM`) offset into `(hours, minutes)`.
pub fn parse_hhmm(raw: &str) -> (r: Option<(i64, i64)>)
    ensures
        r == spec_parse_hhmm(raw@),
{
    let s = chars_of(raw);
    let r = parse_hhmm_in(&s, 0, s.len());
    assert(s@.subrange(0, s.len() as int) =~= s@);
    r
}


/// The moment a relative due date is counted from.
#[derive(Debug, Clone, Copy, PartialEq, Eq, Structural)]
pub enum RelativeBase {
    /// Local midnight of the current day.
    Today,
    /// Local midnight of the next day.
    Tomorrow,
    /// The current instant.
    Now,
}

/// A relative due date: a base and an optional `(hours, minutes)` offset.
#[derive(Debug, Clone, Copy, PartialEq, Eq)]
pub struct RelativeDue {
    pub base: RelativeBase,
    pub offset: Option<(i64, i64)>,
}

/// `i` is the position of the first `+` in `s`.
pub open spec fn is_first_plus(s: Seq<char>, i: int) -> bool {
    &&& 0 <= i < s.len()
    &&& s[i] == '+'
    &&& forall|j: int| 0 <= j < i ==> s[j] != '+'
}

/// The keyword that `t` spells, ignoring the case of ASCII letters.
///
/// The keywords hold only ASCII letters, and no character but the ASCII
/// letters lowercases onto one of them, so this agrees with comparing the
/// Unicode lowercase form of `t`.
pub open spec fn spec_keyword(t: Seq<char>) -> Option<RelativeBase> {
    if eq_ignore_ascii_case(t, "today"@) {
        Some(RelativeBase::Today)
    } else if eq_ignore_ascii_case(t, "tomorrow"@) {
        Some(RelativeBase::Tomorrow)
    } else if eq_ignore_ascii_case(t, "now"@) {
        Some(RelativeBase::Now)
    } else {
        None
    }
}

/// The relative form of an already trimmed input: `today`, `tomorrow` or
/// `now`, optionally followed by `+` and an `HHMM` offset (whitespace around
/// the keyword and the offset is ignored).
pub open spec fn spec_parse_relative(s: Seq<char>) -> Option<RelativeDue> {
    if exists|i: int| is_first_plus(s, i) {
        let i = choose|i: int| is_first_plus(s, i);
        match spec_keyword(trim(s.subrange(0, i))) {
            None => None,
            Some(base) => match spec_parse_hhmm(trim(s.subrange(i + 1, s.len() as int))) {
                None => None,
                Some(hm) => Some(RelativeDue { base, offset: Some(hm) }),
            },
        }
    } else {
        match spec_keyword(s) {
            None => None,
            Some(base) => Some(RelativeDue { base, offset: None }),
        }
    }
}

/// `spec_keyword` on `s[lo..hi]`.
fn keyword_in(s: &Vec<char>, lo: usize, hi: usize) -> (r: Option<RelativeBase>)
    requires
        lo <= hi <= s.len(),
    ensures
        r == spec_keyword(s@.subrange(lo as int, hi as int)),
{
    if slice_eq_ignore_ascii_case(s, lo, hi, "today") {
        Some(RelativeBase::Today)
    } else if slice_eq_ignore_ascii_case(s, lo, hi, "tomorrow") {
        Some(RelativeBase::Tomorrow)
    } else if slice_eq_ignore_ascii_case(s, lo, hi, "now") {
        Some(RelativeBase::Now)
    } else {
        None
    }
}

/// `spec_parse_relative` on `s[lo..hi]`.
fn parse_relative_in(s: &Vec<char>, lo: usize, hi: usize) -> (r: Option<RelativeDue>)
    requires
        lo <= hi <= s.len(),
    ensures
        r == spec_parse_relative(s@.subrange(lo as int, hi as int)),
{
    let ghost t = s@.subrange(lo as int, hi as int);
    let mut k = lo;
    while k < hi && s[k] != '+'
        invariant
            lo <= k <= hi <= s.len(),
            t == s@.subrange(lo as int, hi as int),
            forall|j: int| 0 <= j < k - lo ==> t[j] != '+',
        decreases hi - k,
    {
        k = k + 1;
    }
    if k < hi {
        let ghost i = k - lo;
        assert(is_first_plus(t, i));
        assert forall|m: int| is_first_plus(t, m) implies m == i by {
            if m < i {
                assert(t[m] != '+');
            } else if m > i {
                assert(t[i] != '+');
            }
        }
        let (b0, b1) = trim_bounds(s, lo, k);
        let (o0, o1) = trim_bounds(s, k + 1, hi);
        assert(t.subrange(0, i) =~= s@.subrange(lo as int, k as int));
        assert(t.subrange(i + 1, t.len() as int) =~= s@.subrange(k + 1, hi as int));
        match keyword_in(s, b0, b1) {
            None => None,
            Some(base) => match parse_hhmm_in(s, o0, o1) {
                None => None,
                Some(hm) => Some(RelativeDue { base, offset: Some(hm) }),
            },
        }
    } else {
        assert(!exists|m: int| is_first_plus(t, m));
        match keyword_in(s, lo, hi) {
            None => None,
            Some(base) => Some(RelativeDue { base, offset: None }),
        }
    }
}

/// Parses the relative forms `today`, `tomorrow`, `now`, each optionally
/// followed by `+HHMM`, from an already trimmed input.
pub fn parse_relative(s: &str) -> (r: Option<RelativeDue>)
    ensures
        r == spec_parse_relative(s@),
{
    let cs = chars_of(s);
    assert(cs@.subrange(0, cs.len() as int) =~= cs@);
    parse_relative_in(&cs, 0, cs.len())
}


/// How many digits chrono writes for the magnitude of a year outside `0..=9999`.
pub open spec fn year_width(n: int) -> nat {
    if n < 10_000 {
        4
    } else if n < 100_000 {
        5
    } else {
        6
    }
}

/// A year as chrono's `%Y` writes it: four digits, zero-padded, and for
/// years outside `0..=9999` a sign in front.
pub open spec fn year_text(y: int) -> Seq<char> {
    if 0 <= y <= 9999 {
        padded_digits(y, 4)
    } else if y < 0 {
        seq!['-'] + padded_digits(-y, year_width(-y))
    } else {
        seq!['+'] + padded_digits(y, year_width(y))
    }
}

/// `YYYY-MM-DD`.
pub open spec fn date_text(d: CivilDate) -> Seq<char> {
    year_text(d.year as int) + seq!['-'] + padded_digits(d.month as int, 2) + seq!['-']
        + padded_digits(d.day as int, 2)
}

/// The local time is not exactly midnight.
pub open spec fn has_time_of_day(l: LocalDateTime) -> bool {
    !(l.hour == 0 && l.minute == 0 && l.second == 0 && l.nanosecond == 0)
}

/// How a due date shows: `YYYY-MM-DD` for a whole-day deadline (local
/// midnight), `YYYY-MM-DD HH:MM` for one with a time of day.
pub open spec fn due_text(l: LocalDateTime) -> Seq<char> {
    if has_time_of_day(l) {
        date_text(l.date) + seq![' '] + padded_digits(l.hour as int, 2) + seq![':']
            + padded_digits(l.minute as int, 2)
    } else {
        date_text(l.date)
    }
}

/// Whether a local date and time is not exactly midnight.
pub fn local_has_time_of_day(l: &LocalDateTime) -> (r: bool)
    ensures
        r == has_time_of_day(*l),
{
    !(l.hour == 0 && l.minute == 0 && l.second == 0 && l.nanosecond == 0)
}

fn push_year(out: &mut String, y: i32)
    requires
        MIN_YEAR <= y <= MAX_YEAR,
    ensures
        final(out)@ == old(out)@ + year_text(y as int),
{
    if 0 <= y && y <= 9999 {
        push_padded(out, y as u32, 4);
    } else {
        let a: u32 = if y < 0 {
            push_render_char(out, '-');
            (-(y as i64)) as u32
        } else {
            push_render_char(out, '+');
            y as u32
        };
        let w: u32 = if a < 10_000 { 4 } else if a < 100_000 { 5 } else { 6 };
        push_padded(out, a, w);
        assert(final(out)@ =~= old(out)@ + year_text(y as int));
    }
}

fn push_date(out: &mut String, d: &CivilDate)
    requires
        valid_date(*d),
    ensures
        final(out)@ == old(out)@ + date_text(*d),
{
    push_year(out, d.year);
    push_render_char(out, '-');
    push_padded(out, d.month, 2);
    push_render_char(out, '-');
    push_padded(out, d.day, 2);
    assert(final(out)@ =~= old(out)@ + date_text(*d));
}

/// Renders a local due date: `YYYY-MM-DD` at local midnight, otherwise
/// `YYYY-MM-DD HH:MM` (seconds are not shown).
pub fn format_local_due(l: &LocalDateTime) -> (r: String)
    requires
        valid_local(*l),
    ensures
        r@ == due_text(*l),
{
    let mut out = String::new();
    push_date(&mut out, &l.date);
    if local_has_time_of_day(l) {
        push_render_char(&mut out, ' ');
        push_padded(&mut out, l.hour, 2);
        push_render_char(&mut out, ':');
        push_padded(&mut out, l.minute, 2);
    }
    assert(out@ =~= due_text(*l));
    out
}


/// Classification of a due date relative to now (local time).
#[derive(Debug, Clone, Copy, PartialEq, Eq, Structural)]
pub enum DueStatus {
    Overdue,
    DueToday,
    Upcoming,
}

/// Date `a` comes before date `b`.
pub open spec fn date_before(a: CivilDate, b: CivilDate) -> bool {
    ||| a.year < b.year
    ||| (a.year == b.year && a.month < b.month)
    ||| (a.year == b.year && a.month == b.month && a.day < b.day)
}

/// The instant `millis` comes before the clock reading `now`.
pub open spec fn instant_before(millis: int, now: LocalNow) -> bool {
    millis * 1_000_000 < now.secs * 1_000_000_000 + now.nanos
}

/// The status of the due date `due_millis`, whose local date and time is
/// `due`, at the clock reading `now`. A due with a time of day is overdue once
/// its instant has passed, due today while it is still ahead on the current
/// local day, and upcoming otherwise; a whole-day deadline (local midnight) is
/// classified by its date alone, so it stays due today for the whole day.
pub open spec fn classify(due_millis: int, due: LocalDateTime, now: LocalNow) -> DueStatus {
    if has_time_of_day(due) {
        if instant_before(due_millis, now) {
            DueStatus::Overdue
        } else if due.date == now.today {
            DueStatus::DueToday
        } else {
            DueStatus::Upcoming
        }
    } else if date_before(due.date, now.today) {
        DueStatus::Overdue
    } else if due.date == now.today {
        DueStatus::DueToday
    } else {
        DueStatus::Upcoming
    }
}

fn civil_date_before(a: &CivilDate, b: &CivilDate) -> (r: bool)
    ensures
        r == date_before(*a, *b),
{
    a.year < b.year || (a.year == b.year && a.month < b.month) || (a.year == b.year && a.month
        == b.month && a.day < b.day)
}

fn civil_date_eq(a: &CivilDate, b: &CivilDate) -> (r: bool)
    ensures
        r == (*a == *b),
{
    a.year == b.year && a.month == b.month && a.day == b.day
}

/// Classifies the due date `due_millis` (local date and time `due`) at the clock reading `now`.
pub fn classify_due(due_millis: i64, due: &LocalDateTime, now: &LocalNow) -> (r: DueStatus)
    ensures
        r == classify(due_millis as int, *due, *now),
{
    if local_has_time_of_day(due) {
        let before = (due_millis as i128) * 1_000_000 < (now.secs as i128) * 1_000_000_000
            + now.nanos as i128;
        if before {
            DueStatus::Overdue
        } else if civil_date_eq(&due.date, &now.today) {
            DueStatus::DueToday
        } else {
            DueStatus::Upcoming
        }
    } else if civil_date_before(&due.date, &now.today) {
        DueStatus::Overdue
    } else if civil_date_eq(&due.date, &now.today) {
        DueStatus::DueToday
    } else {
        DueStatus::Upcoming
    }
}

/// Classifies a due date against the current local time. An instant that
/// cannot be represented counts as upcoming.
pub fn due_status(due_millis: i64) -> (r: DueStatus)
    requires
        !near_range_edge(due_millis as int),
    ensures
        !millis_in_range(due_millis as int) ==> r == DueStatus::Upcoming,
        millis_in_range(due_millis as int) ==> exists|due: LocalDateTime, now: LocalNow|
            is_local_reading(due_millis as int, due) && is_clock_reading(now) && r == classify(
                due_millis as int,
                due,
                now,
            ),
{
    match local_datetime_of_millis(due_millis) {
        None => DueStatus::Upcoming,
        Some(due) => {
            let now = local_now();
            classify_due(due_millis, &due, &now)
        },
    }
}

/// Formats a due date in local time: `YYYY-MM-DD` for a whole-day deadline,
/// `YYYY-MM-DD HH:MM` for one with a time of day, and the empty string for an
/// instant that cannot be represented. The text is that of the wall time
/// that the instant reads as in the local time zone.
pub fn format_due_date(millis: i64) -> (r: String)
    requires
        !near_range_edge(millis as int),
    ensures
        !millis_in_range(millis as int) ==> r@ == Seq::<char>::empty(),
        millis_in_range(millis as int) ==> exists|l: LocalDateTime|
            is_local_reading(millis as int, l) && r@ == due_text(l),
{
    match local_datetime_of_millis(millis) {
        Some(l) => format_local_due(&l),
        None => String::new(),
    }
}


/// A parsed `HHMM` offset has at most two hour digits and minutes below 60.
pub proof fn lemma_hhmm_bounds(raw: Seq<char>)
    ensures
        spec_parse_hhmm(raw) matches Some(hm) ==> 0 <= hm.0 <= 99 && 0 <= hm.1 <= 59,
{
    let d = raw.filter(not_colon());
    if 3 <= d.len() <= 4 && (forall|i: int| 0 <= i < d.len() ==> is_digit(#[trigger] d[i])) {
        let split = d.len() - 2;
        reveal_with_fuel(decimal_value, 3);
        assert(d.subrange(0, 1).drop_last() =~= d.subrange(0, 0));
        assert(d.subrange(0, 2).drop_last() =~= d.subrange(0, 1));
        assert(d.subrange(split, split + 1).drop_last() =~= d.subrange(split, split));
        assert(d.subrange(split, d.len() as int).drop_last() =~= d.subrange(split, split + 1));
        assert(is_digit(d[0]) && is_digit(d[1]) && is_digit(d[split]) && is_digit(d[split + 1]));
    }
}

/// The offsets of the relative forms are bounded as `lemma_hhmm_bounds` says.
pub proof fn lemma_relative_offset_bounds(s: Seq<char>)
    ensures
        spec_parse_relative(s) matches Some(f) ==> (f.offset matches Some(hm) ==> 0 <= hm.0 <= 99
            && 0 <= hm.1 <= 59),
{
    if exists|i: int| is_first_plus(s, i) {
        let i = choose|i: int| is_first_plus(s, i);
        lemma_hhmm_bounds(trim(s.subrange(i + 1, s.len() as int)));
    }
}

/// Milliseconds in an optional `(hours, minutes)` offset.
pub open spec fn offset_millis(offset: Option<(i64, i64)>) -> int {
    match offset {
        None => 0,
        Some(hm) => hm.0 * 3_600_000 + hm.1 * 60_000,
    }
}

/// `base` moved forward by an `(hours, minutes)` offset.
pub fn shift_millis(base: i64, offset: Option<(i64, i64)>) -> (r: i64)
    requires
        millis_in_range(base as int),
        offset matches Some(hm) ==> 0 <= hm.0 <= 99 && 0 <= hm.1 <= 59,
    ensures
        r == base + offset_millis(offset),
{
    match offset {
        None => base,
        Some(hm) => base + hm.0 * 3_600_000 + hm.1 * 60_000,
    }
}

/// Minutes in an optional `(hours, minutes)` offset.
pub open spec fn offset_minutes(offset: Option<(i64, i64)>) -> int {
    match offset {
        None => 0,
        Some(hm) => hm.0 * 60 + hm.1,
    }
}

/// The wall time that the relative form `f` (`today` or `tomorrow`) names on
/// the local day `today`: midnight of that day, moved on by the offset on the
/// clock face (`today+1430` is today at 14:30; an offset of a day or more
/// reaches a later day). None when that day cannot be represented.
pub open spec fn relative_target(f: RelativeDue, today: CivilDate) -> Option<LocalDateTime> {
    let mins = offset_minutes(f.offset);
    let start: nat = if f.base == RelativeBase::Tomorrow { 1 } else { 0 };
    match plus_days(today, start + (mins / 1440) as nat) {
        Some(d) => Some(
            LocalDateTime {
                date: d,
                hour: ((mins % 1440) / 60) as u32,
                minute: (mins % 60) as u32,
                second: 0,
                nanosecond: 0,
            },
        ),
        None => None,
    }
}

/// The wall time that an absolute form names: what the first of the formats
/// `YYYY-MM-DDTHH:MM:SS`, `YYYY-MM-DDTHH:MM`, `YYYY-MM-DD HH:MM:SS`,
/// `YYYY-MM-DD HH:MM` reads from the text, else local midnight of the date
/// that `YYYY-MM-DD` reads.
pub open spec fn absolute_target(t: Seq<char>) -> Option<LocalDateTime> {
    if parsed_datetime(t, "%Y-%m-%dT%H:%M:%S"@) is Some {
        parsed_datetime(t, "%Y-%m-%dT%H:%M:%S"@)
    } else if parsed_datetime(t, "%Y-%m-%dT%H:%M"@) is Some {
        parsed_datetime(t, "%Y-%m-%dT%H:%M"@)
    } else if parsed_datetime(t, "%Y-%m-%d %H:%M:%S"@) is Some {
        parsed_datetime(t, "%Y-%m-%d %H:%M:%S"@)
    } else if parsed_datetime(t, "%Y-%m-%d %H:%M"@) is Some {
        parsed_datetime(t, "%Y-%m-%d %H:%M"@)
    } else {
        match parsed_date(t, "%Y-%m-%d"@) {
            Some(d) => Some(midnight(d)),
            None => None,
        }
    }
}

/// `r` is what resolving the wall time `l` in the local time zone gives:
/// nothing when `l` falls in a gap of the zone, otherwise the first instant
/// that chrono lists for `l`, which reads as `l` and is representable unless
/// `l` is a leap second.
pub open spec fn resolves(l: LocalDateTime, r: Option<i64>) -> bool {
    r matches Some(m) ==> is_local_time(l, m as int) && (l.nanosecond < 1_000_000_000 ==> millis_in_range(
        m as int,
    ))
}

/// What a due-date text names before the local time zone is consulted.
#[derive(Debug)]
pub enum DueTarget {
    /// An instant (the `now` forms).
    Instant(i64),
    /// A local wall time, to be resolved in the local time zone.
    Wall(LocalDateTime),
    /// No due date.
    Rejected,
}

/// What the trimmed due-date text `t` names at the clock reading `now`: the
/// instant of a `now` form, the wall time of a `today` / `tomorrow` form or of
/// an absolute form, or nothing for a blank text, a day past the range, or a
/// text that reads as no date.
pub open spec fn due_target(t: Seq<char>, now: LocalNow) -> DueTarget {
    if t.len() == 0 {
        DueTarget::Rejected
    } else {
        match spec_parse_relative(t) {
            Some(f) => if f.base == RelativeBase::Now {
                DueTarget::Instant((now_millis(now) + offset_millis(f.offset)) as i64)
            } else {
                match relative_target(f, now.today) {
                    Some(l) => DueTarget::Wall(l),
                    None => DueTarget::Rejected,
                }
            },
            None => match absolute_target(t) {
                Some(l) => DueTarget::Wall(l),
                None => DueTarget::Rejected,
            },
        }
    }
}

/// `r` is what resolving the target `d` gives: the instant itself, the
/// resolution of the wall time in the local time zone, or nothing.
pub open spec fn target_resolves(d: DueTarget, r: Option<i64>) -> bool {
    match d {
        DueTarget::Instant(m) => r == Some(m),
        DueTarget::Wall(l) => resolves(l, r),
        DueTarget::Rejected => r is None,
    }
}

/// What parsing the trimmed due-date text `t` gives at the clock reading `now`:
/// - nothing for a blank text;
/// - for `now` (with an offset): the instant of the reading, moved forward by
///   the offset;
/// - for `today` / `tomorrow` (with an offset): the instant of the wall time
///   that `relative_target` names, resolved in the local time zone;
/// - otherwise the instant of the wall time that `absolute_target` reads,
///   resolved in the local time zone, and nothing when the text reads as no
///   date.
pub open spec fn due_parse_outcome(t: Seq<char>, now: LocalNow, r: Option<i64>) -> bool {
    if t.len() == 0 {
        r is None
    } else {
        match spec_parse_relative(t) {
            Some(f) => if f.base == RelativeBase::Now {
                r matches Some(m) && m == now_millis(now) + offset_millis(f.offset)
            } else {
                match relative_target(f, now.today) {
                    Some(l) => resolves(l, r),
                    None => r is None,
                }
            },
            None => match absolute_target(t) {
                Some(l) => resolves(l, r),
                None => r is None,
            },
        }
    }
}

/// `r` is what parsing the due-date text `raw` gives at some reading of the clock.
pub open spec fn due_parse_result(raw: Seq<char>, r: Option<i64>) -> bool {
    exists|now: LocalNow| is_clock_reading(now) && #[trigger] due_parse_outcome(trim(raw), now, r)
}

/// The wall time of a relative form on the day `today` (see `relative_target`).
fn relative_local(f: RelativeDue, today: CivilDate) -> (r: Option<LocalDateTime>)
    requires
        valid_date(today),
        f.offset matches Some(hm) ==> 0 <= hm.0 <= 99 && 0 <= hm.1 <= 59,
    ensures
        r == relative_target(f, today),
        r matches Some(l) ==> valid_local(l),
{
    let mins: u32 = match f.offset {
        None => 0,
        Some(hm) => (hm.0 as u32) * 60 + (hm.1 as u32),
    };
    assert(mins == offset_minutes(f.offset));
    let start: u32 = match f.base {
        RelativeBase::Tomorrow => 1,
        _ => 0,
    };
    match add_days(today, start + mins / 1440) {
        Some(d) => Some(
            LocalDateTime {
                date: d,
                hour: (mins % 1440) / 60,
                minute: mins % 60,
                second: 0,
                nanosecond: 0,
            },
        ),
        None => None,
    }
}

/// The first instant that chrono lists for the wall time `l` in the local
/// time zone (`MappedLocalTime::earliest`).
fn resolve_local(l: LocalDateTime) -> (r: Option<i64>)
    requires
        valid_naive(l),
    ensures
        resolves(l, r),
{
    earliest_millis(local_mapping_of(l))
}

/// The wall time of an absolute due date, tried format by format.
fn parse_absolute(s: &str) -> (r: Option<LocalDateTime>)
    ensures
        r == absolute_target(s@),
        r matches Some(l) ==> valid_naive(l),
{
    if let Some(l) = parse_naive_datetime(s, "%Y-%m-%dT%H:%M:%S") {
        return Some(l);
    }
    if let Some(l) = parse_naive_datetime(s, "%Y-%m-%dT%H:%M") {
        return Some(l);
    }
    if let Some(l) = parse_naive_datetime(s, "%Y-%m-%d %H:%M:%S") {
        return Some(l);
    }
    if let Some(l) = parse_naive_datetime(s, "%Y-%m-%d %H:%M") {
        return Some(l);
    }
    match parse_naive_date(s, "%Y-%m-%d") {
        Some(d) => Some(LocalDateTime { date: d, hour: 0, minute: 0, second: 0, nanosecond: 0 }),
        None => None,
    }
}

/// What a due-date text names at the clock reading `now` (see `due_target`).
/// Whitespace around the text is ignored, and the keywords are read in any case.
pub fn due_target_at(raw: &str, now: &LocalNow) -> (r: DueTarget)
    requires
        valid_date(now.today),
        millis_in_range(now_millis(*now)),
    ensures
        r == due_target(trim(raw@), *now),
        r matches DueTarget::Wall(l) ==> valid_naive(l),
        r matches DueTarget::Instant(m) ==> spec_parse_relative(trim(raw@)) matches Some(f) && m == now_millis(*now)
            + offset_millis(f.offset),
{
    let cs = chars_of(raw);
    let (lo, hi) = trim_bounds(&cs, 0, cs.len());
    assert(cs@.subrange(0, cs.len() as int) =~= raw@);
    if lo == hi {
        return DueTarget::Rejected;
    }
    match parse_relative_in(&cs, lo, hi) {
        Some(f) => {
            proof {
                lemma_relative_offset_bounds(cs@.subrange(lo as int, hi as int));
            }
            match f.base {
                RelativeBase::Now => {
                    let b = now.secs * 1000 + (now.nanos / 1_000_000) as i64;
                    DueTarget::Instant(shift_millis(b, f.offset))
                },
                _ => match relative_local(f, now.today) {
                    Some(l) => DueTarget::Wall(l),
                    None => DueTarget::Rejected,
                },
            }
        },
        None => {
            let s = raw.substring_char(lo, hi);
            match parse_absolute(s) {
                Some(l) => DueTarget::Wall(l),
                None => DueTarget::Rejected,
            }
        },
    }
}

/// Parses a due-date text into epoch milliseconds at the clock reading `now`
/// (see `due_parse_outcome`). Whitespace around the text is ignored, and the
/// keywords are read in any case.
pub fn parse_due_date_at(raw: &str, now: &LocalNow) -> (r: Option<i64>)
    requires
        valid_date(now.today),
        millis_in_range(now_millis(*now)),
    ensures
        due_parse_outcome(trim(raw@), *now, r),
        target_resolves(due_target(trim(raw@), *now), r),
{
    match due_target_at(raw, now) {
        DueTarget::Instant(m) => Some(m),
        DueTarget::Wall(l) => resolve_local(l),
        DueTarget::Rejected => None,
    }
}

/// Parses a due-date text into epoch milliseconds (local time), reading the
/// clock once.
///
/// Accepted, after trimming whitespace (keywords in any case):
/// - `today`, `tomorrow`, each optionally followed by `+HHMM` (or `+HH:MM`):
///   that local day at `HH:MM` (local midnight without an offset);
/// - `now`, optionally followed by `+HHMM`: the current instant, moved
///   forward by `HH` hours and `MM` minutes;
/// - `YYYY-MM-DDTHH:MM[:SS]` or `YYYY-MM-DD HH:MM[:SS]`: that local instant;
/// - `YYYY-MM-DD`: local midnight of that day (a whole-day deadline).
///
/// A local time that the time zone skips gives nothing; one that it repeats
/// gives the instant that chrono lists first for it.
pub fn parse_due_date(raw: &str) -> (r: Option<i64>)
    ensures
        due_parse_result(raw@, r),
{
    let now = local_now();
    let r = parse_due_date_at(raw, &now);
    assert(is_clock_reading(now) && due_parse_outcome(trim(raw@), now, r));
    r
}

/// Formatting gives back the wall time a due date was resolved from: an
/// instant `m` that resolves the wall time `l` at an offset, read back as
/// `shown` at that same offset, shows as `l` does (`2026-07-01` as
/// `2026-07-01`, `2026-07-01T14:30` as `2026-07-01 14:30`). Whether the zone
/// gives the same offset on both calls is up to the machine's time zone.
pub proof fn lemma_due_text_reads_back(l: LocalDateTime, m: int, shown: LocalDateTime, off: int)
    requires
        valid_local(l),
        l.nanosecond % 1_000_000 == 0,
        is_local_reading(m, shown),
        crate::calendar::at_offset(l, m, off),
        crate::calendar::at_offset(shown, m, off),
    ensures
        shown == l,
        due_text(shown) == due_text(l),
{
    crate::calendar::lemma_same_offset_same_wall_time(l, shown, m, off);
}

/// A text that is no relative form and that chrono reads under one of the
/// accepted formats is handed to the local time zone as the wall time that
/// the first such format reads (a bare date as its midnight); only a text
/// that no format reads is rejected.
pub proof fn lemma_absolute_texts_reach_the_zone(t: Seq<char>, now: LocalNow)
    requires
        t.len() > 0,
        spec_parse_relative(t) is None,
    ensures
        parsed_datetime(t, "%Y-%m-%dT%H:%M:%S"@) matches Some(l) ==> due_target(t, now) == DueTarget::Wall(l),
        parsed_datetime(t, "%Y-%m-%dT%H:%M:%S"@) is None ==> (parsed_datetime(t, "%Y-%m-%dT%H:%M"@) matches Some(l)
            ==> due_target(t, now) == DueTarget::Wall(l)),
        parsed_datetime(t, "%Y-%m-%dT%H:%M:%S"@) is None && parsed_datetime(t, "%Y-%m-%dT%H:%M"@) is None ==> (
        parsed_datetime(t, "%Y-%m-%d %H:%M:%S"@) matches Some(l) ==> due_target(t, now) == DueTarget::Wall(l)),
        parsed_datetime(t, "%Y-%m-%dT%H:%M:%S"@) is None && parsed_datetime(t, "%Y-%m-%dT%H:%M"@) is None
            && parsed_datetime(t, "%Y-%m-%d %H:%M:%S"@) is None ==> (parsed_datetime(t, "%Y-%m-%d %H:%M"@) matches Some(l)
            ==> due_target(t, now) == DueTarget::Wall(l)),
        parsed_datetime(t, "%Y-%m-%dT%H:%M:%S"@) is None && parsed_datetime(t, "%Y-%m-%dT%H:%M"@) is None
            && parsed_datetime(t, "%Y-%m-%d %H:%M:%S"@) is None && parsed_datetime(t, "%Y-%m-%d %H:%M"@) is None ==> (
        parsed_date(t, "%Y-%m-%d"@) matches Some(d) ==> due_target(t, now) == DueTarget::Wall(
            LocalDateTime { date: d, hour: 0, minute: 0, second: 0, nanosecond: 0 },
        )),
        due_target(t, now) is Rejected ==> parsed_datetime(t, "%Y-%m-%dT%H:%M:%S"@) is None && parsed_datetime(
            t,
            "%Y-%m-%dT%H:%M"@,
        ) is None && parsed_datetime(t, "%Y-%m-%d %H:%M:%S"@) is None && parsed_datetime(t, "%Y-%m-%d %H:%M"@) is None
            && parsed_date(t, "%Y-%m-%d"@) is None,
{
}

/// A `now` form always gives an instant: the clock reading moved forward by the offset.
pub proof fn lemma_now_form_succeeds(raw: Seq<char>, r: Option<i64>)
    requires
        due_parse_result(raw, r),
        spec_parse_relative(trim(raw)) matches Some(f) && f.base == RelativeBase::Now,
    ensures
        r is Some,
{
    let now = choose|now: LocalNow| is_clock_reading(now) && #[trigger] due_parse_outcome(trim(raw), now, r);
    if trim(raw).len() == 0 {
        reveal_strlit("today");
        reveal_strlit("tomorrow");
        reveal_strlit("now");
        assert(!eq_ignore_ascii_case(trim(raw), "now"@));
    }
}

/// A text that is no relative form is read without the clock: what it gives
/// is the same at every clock reading.
pub proof fn lemma_absolute_ignores_clock(t: Seq<char>, a: LocalNow, b: LocalNow, r: Option<i64>)
    requires
        spec_parse_relative(t) is None,
    ensures
        due_parse_outcome(t, a, r) == due_parse_outcome(t, b, r),
{
}

/// Whitespace around a due-date text does not matter.
pub proof fn lemma_parse_ignores_surrounding_whitespace(raw: Seq<char>, r: Option<i64>)
    ensures
        due_parse_result(trim(raw), r) == due_parse_result(raw, r),
{
    crate::text::lemma_trim_idempotent(raw);
}

proof fn lemma_filter_colon_push(a: Seq<char>)
    ensures
        (a + seq![':']).filter(not_colon()) == a.filter(not_colon()),
{
    reveal_with_fuel(Seq::filter, 1);
    assert((a + seq![':']).drop_last() =~= a);
}

/// The colon of an offset is optional: a `:` inserted anywhere in an offset
/// text changes nothing (`14:30` reads as `1430`).
pub proof fn lemma_hhmm_colon_optional(a: Seq<char>, b: Seq<char>)
    ensures
        spec_parse_hhmm(a + seq![':'] + b) == spec_parse_hhmm(a + b),
{
    broadcast use Seq::filter_distributes_over_add;
    lemma_filter_colon_push(a);
    assert((a + seq![':'] + b).filter(not_colon()) == (a + seq![':']).filter(not_colon()) + b.filter(not_colon()));
    assert((a + b).filter(not_colon()) == a.filter(not_colon()) + b.filter(not_colon()));
}

/// The keywords are read without regard to the case of ASCII letters.
pub proof fn lemma_keyword_case_insensitive(t: Seq<char>, u: Seq<char>)
    requires
        eq_ignore_ascii_case(t, u),
    ensures
        spec_keyword(t) == spec_keyword(u),
{
    assert forall|w: Seq<char>| eq_ignore_ascii_case(t, w) <==> eq_ignore_ascii_case(u, w) by {
        if eq_ignore_ascii_case(t, w) {
            assert forall|i: int| 0 <= i < u.len() implies ascii_lower_code(#[trigger] u[i]) == ascii_lower_code(w[i]) by {
                assert(ascii_lower_code(t[i]) == ascii_lower_code(u[i]));
            }
        }
        if eq_ignore_ascii_case(u, w) {
            assert forall|i: int| 0 <= i < t.len() implies ascii_lower_code(#[trigger] t[i]) == ascii_lower_code(w[i]) by {
                assert(ascii_lower_code(t[i]) == ascii_lower_code(u[i]));
            }
        }
    }
}

/// A whole-day deadline (local midnight) shows as its date alone; a due with
/// a time of day shows as its date, a space and `HH:MM`.
pub proof fn lemma_due_text_shapes(l: LocalDateTime)
    ensures
        !has_time_of_day(l) ==> due_text(l) == date_text(l.date),
        has_time_of_day(l) ==> due_text(l).subrange(0, date_text(l.date).len() as int) == date_text(l.date)
            && due_text(l).len() == date_text(l.date).len() + 6,
{
    if has_time_of_day(l) {
        assert(due_text(l).subrange(0, date_text(l.date).len() as int) =~= date_text(l.date));
    }
}

/// Seconds and fractions of a second do not show: two dues with a time of
/// day on the same date, hour and minute show alike.
pub proof fn lemma_due_text_ignores_seconds(a: LocalDateTime, b: LocalDateTime)
    requires
        has_time_of_day(a),
        has_time_of_day(b),
        a.date == b.date,
        a.hour == b.hour,
        a.minute == b.minute,
    ensures
        due_text(a) == due_text(b),
{
}

/// A whole-day deadline is due today for the whole of its local day,
/// whatever the time of day now is.
pub proof fn lemma_whole_day_due_today(due_millis: int, due: LocalDateTime, now: LocalNow)
    requires
        !has_time_of_day(due),
        due.date == now.today,
    ensures
        classify(due_millis, due, now) == DueStatus::DueToday,
{
}

/// A due with a time of day is overdue as soon as its instant has passed,
/// even on its own day.
pub proof fn lemma_timed_due_overdue_once_passed(due_millis: int, due: LocalDateTime, now: LocalNow)
    requires
        has_time_of_day(due),
        instant_before(due_millis, now),
    ensures
        classify(due_millis, due, now) == DueStatus::Overdue,
{
}

/// A due date on a later local day than today is upcoming, with or without
/// a time of day.
pub proof fn lemma_later_day_upcoming(due_millis: int, due: LocalDateTime, now: LocalNow)
    requires
        date_before(now.today, due.date),
        !instant_before(due_millis, now),
    ensures
        classify(due_millis, due, now) == DueStatus::Upcoming,
{
}

} // verus!
