use chrono::{DateTime, Duration, Local, NaiveDate, Timelike};
use taskbook::calendar::{add_days, next_date, CivilDate, LocalDateTime, LocalNow, MAX_MILLIS, MAX_YEAR, MIN_MILLIS, MIN_YEAR};
use taskbook::due::{
    classify_due, due_status, format_due_date, format_local_due, parse_due_date, parse_due_date_at,
    parse_hhmm, parse_relative, shift_millis, DueStatus, RelativeBase, RelativeDue,
};

fn local_dt(millis: i64) -> DateTime<Local> {
    DateTime::from_timestamp_millis(millis)
        .unwrap()
        .with_timezone(&Local)
}

#[test]
fn parse_iso_date_round_trips() {
    let millis = parse_due_date("2026-07-01").unwrap();
    assert_eq!(format_due_date(millis), "2026-07-01");
}

#[test]
fn parse_iso_datetime_round_trips() {
    let millis = parse_due_date("2026-07-01T14:30").unwrap();
    assert_eq!(format_due_date(millis), "2026-07-01 14:30");
}

#[test]
fn parse_iso_datetime_space_separator() {
    let millis = parse_due_date("2026-07-01 09:05").unwrap();
    assert_eq!(format_due_date(millis), "2026-07-01 09:05");
}

#[test]
fn parse_iso_datetime_with_seconds() {
    // Seconds are accepted; display truncates to minutes.
    let millis = parse_due_date("2026-07-01T14:30:45").unwrap();
    assert_eq!(format_due_date(millis), "2026-07-01 14:30");
}

#[test]
fn midnight_time_renders_as_date_only() {
    let millis = parse_due_date("2026-07-01T00:00").unwrap();
    assert_eq!(format_due_date(millis), "2026-07-01");
}

#[test]
fn parse_today_and_tomorrow() {
    let today = Local::now().date_naive();
    let t = parse_due_date("today").unwrap();
    assert_eq!(format_due_date(t), today.format("%Y-%m-%d").to_string());
    let tm = parse_due_date("Tomorrow").unwrap();
    assert_eq!(
        format_due_date(tm),
        today.succ_opt().unwrap().format("%Y-%m-%d").to_string()
    );
}

#[test]
fn parse_today_plus_offset_sets_time_of_day() {
    let millis = parse_due_date("today+1430").unwrap();
    let dt = local_dt(millis);
    assert_eq!(dt.date_naive(), Local::now().date_naive());
    assert_eq!(dt.hour(), 14);
    assert_eq!(dt.minute(), 30);
}

#[test]
fn parse_tomorrow_plus_offset_with_colon() {
    let millis = parse_due_date("tomorrow+09:05").unwrap();
    let dt = local_dt(millis);
    assert_eq!(
        dt.date_naive(),
        Local::now().date_naive().succ_opt().unwrap()
    );
    assert_eq!(dt.hour(), 9);
    assert_eq!(dt.minute(), 5);
}

#[test]
fn parse_now_plus_offset_adds_duration() {
    let before = Local::now();
    let millis = parse_due_date("now+0130").unwrap();
    let dt = local_dt(millis);
    let delta = dt - before;
    // ~1h30m from now (allow a generous window for test execution time).
    assert!(delta >= Duration::minutes(89) && delta <= Duration::minutes(91));
}

#[test]
fn parse_invalid_returns_none() {
    assert_eq!(parse_due_date("next week"), None);
    assert_eq!(parse_due_date("2026-13-99"), None);
    assert_eq!(parse_due_date(""), None);
    assert_eq!(parse_due_date("today+99"), None); // offset too short
    assert_eq!(parse_due_date("today+1499"), None); // minutes >= 60
    assert_eq!(parse_due_date("today+abcd"), None);
}

#[test]
fn status_classification_whole_day() {
    let today = parse_due_date("today").unwrap();
    assert_eq!(due_status(today), DueStatus::DueToday);
    let tomorrow = parse_due_date("tomorrow").unwrap();
    assert_eq!(due_status(tomorrow), DueStatus::Upcoming);
    let yesterday = today - 24 * 60 * 60 * 1000;
    assert_eq!(due_status(yesterday), DueStatus::Overdue);
}

#[test]
fn status_timed_due_is_time_granular() {
    let now = Local::now();
    // A timed due one hour ago today is overdue (not merely "due today").
    let past = (now - Duration::hours(1)).timestamp_millis();
    assert_eq!(due_status(past), DueStatus::Overdue);
    // A timed due one hour from now today is due today.
    let soon = (now + Duration::hours(1)).timestamp_millis();
    // Guard against the rare case where +1h crosses midnight.
    if local_dt(soon).date_naive() == now.date_naive() {
        assert_eq!(due_status(soon), DueStatus::DueToday);
    }
}

#[test]
fn hhmm_reads_hours_and_minutes() {
    assert_eq!(parse_hhmm("1430"), Some((14, 30)));
    assert_eq!(parse_hhmm("14:30"), Some((14, 30)));
    assert_eq!(parse_hhmm("930"), Some((9, 30)));
    assert_eq!(parse_hhmm("9:30"), Some((9, 30)));
    assert_eq!(parse_hhmm("0000"), Some((0, 0)));
    assert_eq!(parse_hhmm("9959"), Some((99, 59)));
    assert_eq!(parse_hhmm(":1:4:3:0:"), Some((14, 30)));
}

#[test]
fn hhmm_rejects_bad_offsets() {
    assert_eq!(parse_hhmm("99"), None);
    assert_eq!(parse_hhmm("12345"), None);
    assert_eq!(parse_hhmm("1460"), None);
    assert_eq!(parse_hhmm("ab12"), None);
    assert_eq!(parse_hhmm(" 1430"), None);
    assert_eq!(parse_hhmm("１４３０"), None);
    assert_eq!(parse_hhmm(""), None);
}

#[test]
fn colon_is_optional_in_offsets() {
    for (a, b) in [("1430", "14:30"), ("0905", "09:05"), ("930", "9:30"), ("1499", "14:99")] {
        assert_eq!(parse_hhmm(a), parse_hhmm(b));
    }
}

#[test]
fn relative_forms_are_recognised() {
    assert_eq!(
        parse_relative("today"),
        Some(RelativeDue { base: RelativeBase::Today, offset: None })
    );
    assert_eq!(
        parse_relative("TOMORROW + 09:05"),
        Some(RelativeDue { base: RelativeBase::Tomorrow, offset: Some((9, 5)) })
    );
    assert_eq!(
        parse_relative("Now+0130"),
        Some(RelativeDue { base: RelativeBase::Now, offset: Some((1, 30)) })
    );
    assert_eq!(parse_relative("today+99"), None);
    assert_eq!(parse_relative("yesterday"), None);
    assert_eq!(parse_relative("today tomorrow"), None);
    assert_eq!(parse_relative("2026-07-01"), None);
    assert_eq!(parse_relative("today+12+30"), None);
}

#[test]
fn keywords_ignore_ascii_case() {
    for word in ["today", "TODAY", "ToDaY", "tODAY"] {
        assert_eq!(parse_relative(word).map(|f| f.base), Some(RelativeBase::Today));
    }
}

#[test]
fn blank_input_is_no_due_date() {
    assert_eq!(parse_due_date("   "), None);
    assert_eq!(parse_due_date("\t\n"), None);
}

#[test]
fn surrounding_whitespace_is_ignored() {
    assert_eq!(parse_due_date("  2026-07-01 \n"), parse_due_date("2026-07-01"));
}

#[test]
fn offsets_shift_by_hours_and_minutes() {
    assert_eq!(shift_millis(1_000, None), 1_000);
    assert_eq!(shift_millis(0, Some((14, 30))), 14 * 3_600_000 + 30 * 60_000);
    assert_eq!(shift_millis(-60_000, Some((0, 1))), 0);
}

fn ldt(year: i32, month: u32, day: u32, hour: u32, minute: u32, second: u32, nanosecond: u32) -> LocalDateTime {
    LocalDateTime { date: CivilDate { year, month, day }, hour, minute, second, nanosecond }
}

#[test]
fn local_dues_render_as_date_or_date_and_time() {
    assert_eq!(format_local_due(&ldt(2026, 7, 1, 0, 0, 0, 0)), "2026-07-01");
    assert_eq!(format_local_due(&ldt(2026, 7, 1, 14, 30, 45, 0)), "2026-07-01 14:30");
    assert_eq!(format_local_due(&ldt(2026, 7, 1, 0, 0, 1, 0)), "2026-07-01 00:00");
    assert_eq!(format_local_due(&ldt(2026, 7, 1, 0, 0, 0, 1)), "2026-07-01 00:00");
    assert_eq!(format_local_due(&ldt(987, 1, 2, 0, 0, 0, 0)), "0987-01-02");
    assert_eq!(format_local_due(&ldt(-44, 3, 15, 0, 0, 0, 0)), "-0044-03-15");
    assert_eq!(format_local_due(&ldt(12345, 12, 31, 23, 59, 0, 0)), "+12345-12-31 23:59");
}

#[test]
fn rendering_follows_chrono_year_format() {
    for (y, m, d) in [(2026, 7, 1), (5, 1, 1), (-5, 2, 28), (10000, 6, 30), (-262143, 1, 1), (262142, 12, 31)] {
        let expected = NaiveDate::from_ymd_opt(y, m, d).unwrap().format("%Y-%m-%d").to_string();
        assert_eq!(format_local_due(&ldt(y, m, d, 0, 0, 0, 0)), expected);
    }
}

#[test]
fn unrepresentable_instants_are_blank_and_upcoming() {
    assert_eq!(format_due_date(i64::MAX), "");
    assert_eq!(format_due_date(i64::MIN), "");
    assert_eq!(due_status(i64::MAX), DueStatus::Upcoming);
}

#[test]
fn representable_range_matches_chrono() {
    assert!(DateTime::from_timestamp_millis(MIN_MILLIS).is_some());
    assert!(DateTime::from_timestamp_millis(MAX_MILLIS).is_some());
    assert!(DateTime::from_timestamp_millis(MIN_MILLIS - 1).is_none());
    assert!(DateTime::from_timestamp_millis(MAX_MILLIS + 1).is_none());
}

fn reading(secs: i64, nanos: u32, year: i32, month: u32, day: u32) -> LocalNow {
    LocalNow { secs, nanos, today: CivilDate { year, month, day } }
}

#[test]
fn whole_day_dues_are_classified_by_date() {
    let now = reading(1_000_000, 0, 2026, 7, 1);
    let due = ldt(2026, 7, 1, 0, 0, 0, 0);
    // Due today for the whole day, even after its midnight has passed.
    assert_eq!(classify_due(0, &due, &now), DueStatus::DueToday);
    assert_eq!(classify_due(0, &ldt(2026, 6, 30, 0, 0, 0, 0), &now), DueStatus::Overdue);
    assert_eq!(classify_due(0, &ldt(2025, 12, 31, 0, 0, 0, 0), &now), DueStatus::Overdue);
    assert_eq!(classify_due(0, &ldt(2026, 7, 2, 0, 0, 0, 0), &now), DueStatus::Upcoming);
}

#[test]
fn timed_dues_are_classified_by_instant() {
    let now = reading(1_000, 500_000_000, 2026, 7, 1);
    let due = ldt(2026, 7, 1, 12, 0, 0, 0);
    assert_eq!(classify_due(1_000_000, &due, &now), DueStatus::Overdue);
    assert_eq!(classify_due(1_000_400, &due, &now), DueStatus::Overdue);
    assert_eq!(classify_due(1_000_500, &due, &now), DueStatus::DueToday);
    assert_eq!(classify_due(2_000_000, &ldt(2026, 7, 2, 1, 0, 0, 0), &now), DueStatus::Upcoming);
}

fn civil(year: i32, month: u32, day: u32) -> CivilDate {
    CivilDate { year, month, day }
}

fn naive(d: CivilDate) -> NaiveDate {
    NaiveDate::from_ymd_opt(d.year, d.month, d.day).unwrap()
}

#[test]
fn now_forms_count_from_the_reading() {
    let now = reading(1_000_000, 250_000_000, 1970, 1, 12);
    assert_eq!(parse_due_date_at("now", &now), Some(1_000_000_250));
    assert_eq!(parse_due_date_at(" NOW + 01:30 ", &now), Some(1_000_000_250 + 5_400_000));
    assert_eq!(parse_due_date_at("now+9959", &now), Some(1_000_000_250 + 99 * 3_600_000 + 59 * 60_000));
}

#[test]
fn relative_days_name_wall_times_of_the_reading_day() {
    let now = reading(1_000_000, 0, 2026, 7, 1);
    let at = |text: &str| local_dt(parse_due_date_at(text, &now).unwrap()).naive_local();
    let today = naive(civil(2026, 7, 1));
    assert_eq!(at("today"), today.and_hms_opt(0, 0, 0).unwrap());
    assert_eq!(at("today+1430"), today.and_hms_opt(14, 30, 0).unwrap());
    assert_eq!(at("Tomorrow"), today.succ_opt().unwrap().and_hms_opt(0, 0, 0).unwrap());
    assert_eq!(at("tomorrow+09:05"), today.succ_opt().unwrap().and_hms_opt(9, 5, 0).unwrap());
    // An offset of a day or more reaches a later day on the clock face.
    assert_eq!(at("tomorrow+2500"), naive(civil(2026, 7, 3)).and_hms_opt(1, 0, 0).unwrap());
    assert_eq!(at("today+9959"), naive(civil(2026, 7, 5)).and_hms_opt(3, 59, 0).unwrap());
}

#[test]
fn tomorrow_after_the_last_day_is_none() {
    let now = reading(0, 0, MAX_YEAR, 12, 31);
    assert_eq!(parse_due_date_at("tomorrow", &now), None);
    assert_eq!(parse_due_date_at("today+2400", &now), None);
}

#[test]
fn absolute_forms_ignore_the_reading() {
    let a = reading(0, 0, 1970, 1, 1);
    let b = reading(1_000_000_000, 0, 2001, 9, 9);
    for text in ["2026-07-01", "2026-07-01T14:30", "2026-07-01 09:05:07", "next week", ""] {
        assert_eq!(parse_due_date_at(text, &a), parse_due_date_at(text, &b));
        assert_eq!(parse_due_date_at(text, &a), parse_due_date(text));
    }
    let m = parse_due_date_at("2026-07-01T14:30:45", &a).unwrap();
    assert_eq!(local_dt(m).naive_local(), naive(civil(2026, 7, 1)).and_hms_opt(14, 30, 45).unwrap());
    let d = parse_due_date_at("2026-07-01", &a).unwrap();
    assert_eq!(local_dt(d).naive_local(), naive(civil(2026, 7, 1)).and_hms_opt(0, 0, 0).unwrap());
}

#[test]
fn next_date_follows_the_calendar() {
    assert_eq!(next_date(civil(2024, 2, 28)), Some(civil(2024, 2, 29)));
    assert_eq!(next_date(civil(2023, 2, 28)), Some(civil(2023, 3, 1)));
    assert_eq!(next_date(civil(1900, 2, 28)), Some(civil(1900, 3, 1)));
    assert_eq!(next_date(civil(2000, 2, 28)), Some(civil(2000, 2, 29)));
    assert_eq!(next_date(civil(2026, 4, 30)), Some(civil(2026, 5, 1)));
    assert_eq!(next_date(civil(2026, 12, 31)), Some(civil(2027, 1, 1)));
    assert_eq!(next_date(civil(MAX_YEAR, 12, 31)), None);
    for d in [civil(-4, 2, 28), civil(-100, 2, 28), civil(-400, 2, 28), civil(MIN_YEAR, 1, 1), civil(-1, 12, 31), civil(2024, 2, 29)] {
        let expected = naive(d).succ_opt().unwrap();
        assert_eq!(next_date(d).map(naive), Some(expected));
    }
}

#[test]
fn add_days_counts_calendar_days() {
    assert_eq!(add_days(civil(2026, 7, 1), 0), Some(civil(2026, 7, 1)));
    assert_eq!(add_days(civil(2026, 12, 30), 3), Some(civil(2027, 1, 2)));
    assert_eq!(add_days(civil(2024, 2, 27), 2), Some(civil(2024, 2, 29)));
    assert_eq!(add_days(civil(MAX_YEAR, 12, 30), 2), None);
}
