use chrono::{Datelike, TimeZone, Timelike, Utc};
use chores::schedule::{
    CertainMonths, DaysOfWeek, Monthwise, NDays, NWeeks, Once, Schedule, ScheduleKind,
    WeeksOfMonth,
};
use chores::tasks::{
    default_certain_months, default_monthwise, default_n_days, default_n_weeks,
    default_weeks_of_month,
};

fn hms(h: u32, m: u32, s: u32) -> u32 {
    h * 3600 + m * 60 + s
}

fn base_schedule(now: i64) -> Schedule {
    Schedule {
        kind: ScheduleKind::NDays,
        n_days: default_n_days(),
        n_weeks: default_n_weeks(),
        monthwise: default_monthwise(),
        weeks_of_month: default_weeks_of_month(),
        certain_months: default_certain_months(),
        once: chores::tasks::default_once(now),
    }
}

fn dow(
    sunday: bool,
    monday: bool,
    tuesday: bool,
    wednesday: bool,
    thursday: bool,
    friday: bool,
    saturday: bool,
    time: u32,
) -> DaysOfWeek {
    DaysOfWeek { sunday, monday, tuesday, wednesday, thursday, friday, saturday, time }
}

fn utc_of(ts: i64) -> chrono::DateTime<Utc> {
    chrono::DateTime::from_timestamp(ts, 0).unwrap()
}

#[test]
fn test_ndays_basic() {
    let now = Utc::now().timestamp();
    let mut schedule = base_schedule(now);
    schedule.kind = ScheduleKind::NDays;
    schedule.n_days = NDays { days: 3, time: hms(10, 0, 0) };

    let result = schedule.most_recent_due_date(now, "UTC");
    let local_result = utc_of(result);

    assert_eq!(local_result.time().hour(), 10);
    assert_eq!(local_result.time().minute(), 0);
    assert!(result <= now);
}

#[test]
fn test_ndays_single_day() {
    let now = Utc::now().timestamp();
    let mut schedule = base_schedule(now);
    schedule.kind = ScheduleKind::NDays;
    schedule.n_days = NDays { days: 1, time: hms(12, 0, 0) };

    let result = schedule.most_recent_due_date(now, "UTC");
    let local_result = utc_of(result);

    assert_eq!(local_result.time().hour(), 12);
    assert_eq!(local_result.time().minute(), 0);

    let now_local = utc_of(now);
    let today_noon = Utc
        .with_ymd_and_hms(now_local.year(), now_local.month(), now_local.day(), 12, 0, 0)
        .unwrap();

    if now >= today_noon.timestamp() {
        assert_eq!(local_result.date_naive(), now_local.date_naive());
    } else {
        assert_eq!(
            local_result.date_naive(),
            (now_local - chrono::Duration::days(1)).date_naive()
        );
    }
}

#[test]
fn test_nweeks_single_day() {
    let now = Utc::now().timestamp();
    let mut schedule = base_schedule(now);
    schedule.kind = ScheduleKind::NWeeks;
    schedule.n_weeks = NWeeks {
        weeks: 1,
        sub_schedule: dow(false, true, false, false, false, false, false, hms(9, 0, 0)),
    };

    let result = schedule.most_recent_due_date(now, "UTC");
    let local_result = utc_of(result);

    assert_eq!(local_result.time().hour(), 9);
    assert_eq!(local_result.time().minute(), 0);
    assert_eq!(local_result.weekday(), chrono::Weekday::Mon);
    assert!(result <= now);
}

#[test]
fn test_nweeks_multiple_days() {
    let now = Utc::now().timestamp();
    let mut schedule = base_schedule(now);
    schedule.kind = ScheduleKind::NWeeks;
    schedule.n_weeks = NWeeks {
        weeks: 1,
        sub_schedule: dow(false, false, true, false, true, false, false, hms(14, 0, 0)),
    };

    let result = schedule.most_recent_due_date(now, "UTC");
    let local_result = utc_of(result);

    assert_eq!(local_result.time().hour(), 14);
    assert_eq!(local_result.time().minute(), 0);

    let weekday = local_result.weekday();
    assert!(weekday == chrono::Weekday::Tue || weekday == chrono::Weekday::Thu);
    assert!(result <= now);
}

#[test]
fn test_nweeks_every_other_week() {
    let now = Utc::now().timestamp();
    let mut schedule = base_schedule(now);
    schedule.kind = ScheduleKind::NWeeks;
    schedule.n_weeks = NWeeks {
        weeks: 2,
        sub_schedule: dow(false, false, false, true, false, false, false, hms(11, 0, 0)),
    };

    let result = schedule.most_recent_due_date(now, "UTC");
    let local_result = utc_of(result);

    assert_eq!(local_result.time().hour(), 11);
    assert_eq!(local_result.time().minute(), 0);
    assert_eq!(local_result.weekday(), chrono::Weekday::Wed);
    assert!(result <= now);

    let days_ago = (now - result) / 86400;
    assert!(days_ago <= 14);
}

#[test]
fn test_monthwise_single_day() {
    let now = Utc::now().timestamp();
    let mut schedule = base_schedule(now);
    schedule.kind = ScheduleKind::Monthwise;
    schedule.monthwise = Monthwise { days: vec![1], time: hms(8, 0, 0) };

    let result = schedule.most_recent_due_date(now, "UTC");
    let local_result = utc_of(result);

    assert_eq!(local_result.time().hour(), 8);
    assert_eq!(local_result.time().minute(), 0);
    assert_eq!(local_result.day(), 1);
    assert!(result <= now);
}

#[test]
fn test_monthwise_multiple_days() {
    let now = Utc::now().timestamp();
    let mut schedule = base_schedule(now);
    schedule.kind = ScheduleKind::Monthwise;
    schedule.monthwise = Monthwise { days: vec![1, 15], time: hms(15, 0, 0) };

    let result = schedule.most_recent_due_date(now, "UTC");
    let local_result = utc_of(result);

    assert_eq!(local_result.time().hour(), 15);
    assert_eq!(local_result.time().minute(), 0);

    let day = local_result.day();
    assert!(day == 1 || day == 15);
    assert!(result <= now);
}

#[test]
fn test_monthwise_mid_month() {
    let now = Utc::now().timestamp();
    let mut schedule = base_schedule(now);
    schedule.kind = ScheduleKind::Monthwise;
    schedule.monthwise = Monthwise { days: vec![10, 20, 25], time: hms(10, 30, 0) };

    let result = schedule.most_recent_due_date(now, "UTC");
    let local_result = utc_of(result);

    assert_eq!(local_result.time().hour(), 10);
    assert_eq!(local_result.time().minute(), 30);

    let day = local_result.day();
    assert!(day == 10 || day == 20 || day == 25);
    assert!(result <= now);
}

#[test]
fn test_weeks_of_month_first_monday() {
    let now = Utc::now().timestamp();
    let mut schedule = base_schedule(now);
    schedule.kind = ScheduleKind::WeeksOfMonth;
    schedule.weeks_of_month = WeeksOfMonth {
        weeks: vec![1],
        sub_schedule: dow(false, true, false, false, false, false, false, hms(9, 0, 0)),
    };

    let result = schedule.most_recent_due_date(now, "UTC");
    let local_result = utc_of(result);

    assert_eq!(local_result.time().hour(), 9);
    assert_eq!(local_result.time().minute(), 0);
    assert_eq!(local_result.weekday(), chrono::Weekday::Mon);

    let day = local_result.day();
    assert!(day >= 1 && day <= 7);
    assert!(result <= now);
}

#[test]
fn test_weeks_of_month_second_and_fourth_friday() {
    let now = Utc::now().timestamp();
    let mut schedule = base_schedule(now);
    schedule.kind = ScheduleKind::WeeksOfMonth;
    schedule.weeks_of_month = WeeksOfMonth {
        weeks: vec![2, 4],
        sub_schedule: dow(false, false, false, false, false, true, false, hms(17, 0, 0)),
    };

    let result = schedule.most_recent_due_date(now, "UTC");
    let local_result = utc_of(result);

    assert_eq!(local_result.time().hour(), 17);
    assert_eq!(local_result.time().minute(), 0);
    assert_eq!(local_result.weekday(), chrono::Weekday::Fri);

    let day = local_result.day();
    assert!((day >= 8 && day <= 14) || (day >= 22 && day <= 28));
    assert!(result <= now);
}

#[test]
fn test_weeks_of_month_multiple_weekdays() {
    let now = Utc::now().timestamp();
    let mut schedule = base_schedule(now);
    schedule.kind = ScheduleKind::WeeksOfMonth;
    schedule.weeks_of_month = WeeksOfMonth {
        weeks: vec![1, 3],
        sub_schedule: dow(false, false, true, false, true, false, false, hms(13, 0, 0)),
    };

    let result = schedule.most_recent_due_date(now, "UTC");
    let local_result = utc_of(result);

    assert_eq!(local_result.time().hour(), 13);
    assert_eq!(local_result.time().minute(), 0);

    let weekday = local_result.weekday();
    assert!(weekday == chrono::Weekday::Tue || weekday == chrono::Weekday::Thu);

    let day = local_result.day();
    assert!((day >= 1 && day <= 7) || (day >= 15 && day <= 21));
    assert!(result <= now);
}

#[test]
fn test_days_of_week_active() {
    let schedule = dow(true, false, true, false, true, false, true, hms(12, 0, 0));

    assert!(schedule.active(0));
    assert!(!schedule.active(1));
    assert!(schedule.active(2));
    assert!(!schedule.active(3));
    assert!(schedule.active(4));
    assert!(!schedule.active(5));
    assert!(schedule.active(6));
}

#[test]
fn test_ndays_weekly() {
    let now = Utc::now().timestamp();
    let mut schedule = base_schedule(now);
    schedule.kind = ScheduleKind::NDays;
    schedule.n_days = NDays { days: 7, time: hms(18, 0, 0) };

    let result = schedule.most_recent_due_date(now, "UTC");
    let local_result = utc_of(result);

    assert_eq!(local_result.time().hour(), 18);
    assert_eq!(local_result.time().minute(), 0);
    assert!(result <= now);
}

#[test]
fn test_monthwise_end_of_month() {
    let now = Utc::now().timestamp();
    let mut schedule = base_schedule(now);
    schedule.kind = ScheduleKind::Monthwise;
    schedule.monthwise = Monthwise { days: vec![28, 29, 30], time: hms(23, 0, 0) };

    let result = schedule.most_recent_due_date(now, "UTC");
    let local_result = utc_of(result);

    assert_eq!(local_result.time().hour(), 23);
    assert_eq!(local_result.time().minute(), 0);

    let day = local_result.day();
    assert!(day >= 28 && day <= 30);
    assert!(result <= now);
}

#[test]
fn test_once_schedule_is_its_instant() {
    let now = Utc::now().timestamp();
    let t = Utc.with_ymd_and_hms(2031, 6, 15, 9, 30, 0).unwrap().timestamp();
    let mut schedule = base_schedule(now);
    schedule.kind = ScheduleKind::Once;
    schedule.once = Once { datetime: t };

    // The fixed instant lies in the future, so the most recent due instant
    // falls back to the horizon behind now.
    assert_eq!(schedule.most_recent_due_date(now, "UTC"), now - 60 * 86400);

    let past = now - 1000;
    schedule.once = Once { datetime: past };
    assert_eq!(schedule.most_recent_due_date(now, "UTC"), past);
}

#[test]
fn test_search_in_zone_with_offset() {
    // 2024-06-05 04:00 UTC is 2024-06-04 21:00 in Los Angeles (UTC-7 in
    // June): the daily 22:00 schedule was last due on June 3 local time.
    let now = Utc.with_ymd_and_hms(2024, 6, 5, 4, 0, 0).unwrap().timestamp();
    let mut schedule = base_schedule(now);
    schedule.kind = ScheduleKind::NDays;
    schedule.n_days = NDays { days: 1, time: hms(22, 0, 0) };

    let result = schedule.most_recent_due_date(now, "America/Los_Angeles");
    let expected = Utc.with_ymd_and_hms(2024, 6, 4, 5, 0, 0).unwrap().timestamp();
    assert_eq!(result, expected);
}
