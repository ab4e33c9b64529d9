use chrono::{TimeZone, Timelike, Utc};
use chores::db::DbSchedule;
use chores::schedule::{NDays, NWeeks, Once, ScheduleKind};
use chores::seed::SeedTask;
use chores::tasks::{DemoTask, TaskStatus};

fn plain_seed(schedule_type: &str) -> SeedTask {
    SeedTask {
        name: "chore".to_string(),
        details: String::new(),
        schedule_type: schedule_type.to_string(),
        n_days: None,
        n_weeks: None,
        time: None,
        days: None,
        days_of_month: None,
        weeks: None,
        months: None,
        alerting_time: None,
        completeable: true,
    }
}

fn daily_noon_task(now: i64) -> DemoTask {
    let mut t = plain_seed("n_days").to_demo_task(now);
    t.n_days = NDays { days: 1, time: 12 * 3600 };
    t
}

#[test]
fn test_most_recent_due_daily_noon() {
    // The every-day-at-noon chore: the most recent due instant is at or
    // before now and always at 12:00 local time.
    let now = Utc.with_ymd_and_hms(2024, 3, 15, 9, 30, 0).unwrap().timestamp();
    let t = daily_noon_task(now);
    let mrd = t.most_recent_due_date(now, "UTC");
    assert!(mrd <= now);
    let at = chrono::DateTime::from_timestamp(mrd, 0).unwrap();
    assert_eq!(at.hour(), 12);
    assert_eq!(at.minute(), 0);
    // 09:30 is before noon, so yesterday's noon is the answer.
    assert_eq!(mrd, Utc.with_ymd_and_hms(2024, 3, 14, 12, 0, 0).unwrap().timestamp());

    let later = Utc.with_ymd_and_hms(2024, 3, 15, 13, 0, 0).unwrap().timestamp();
    let mrd2 = t.most_recent_due_date(later, "UTC");
    assert_eq!(mrd2, Utc.with_ymd_and_hms(2024, 3, 15, 12, 0, 0).unwrap().timestamp());
}

#[test]
fn test_wednesday_biweekly_within_fourteen_days() {
    // Active only on Wednesday at 11:00, looked at every other week: the
    // answer is a Wednesday at 11:00, never more than 14 days back.
    let now = Utc.with_ymd_and_hms(2024, 5, 21, 8, 0, 0).unwrap().timestamp();
    let mut t = plain_seed("n_weeks").to_demo_task(now);
    t.n_weeks = NWeeks {
        weeks: 2,
        sub_schedule: chores::schedule::DaysOfWeek {
            sunday: false,
            monday: false,
            tuesday: false,
            wednesday: true,
            thursday: false,
            friday: false,
            saturday: false,
            time: 11 * 3600,
        },
    };
    let mrd = t.most_recent_due_date(now, "UTC");
    let at = chrono::DateTime::from_timestamp(mrd, 0).unwrap();
    assert_eq!(chrono::Datelike::weekday(&at), chrono::Weekday::Wed);
    assert_eq!(at.hour(), 11);
    assert!(now - mrd <= 14 * 86400);
}

#[test]
fn test_next_due_once_returns_fixed_instant() {
    // A one-time chore answers its fixed instant whatever now is.
    let t0 = Utc.with_ymd_and_hms(2024, 7, 1, 10, 0, 0).unwrap().timestamp();
    let mut t = plain_seed("n_days").to_demo_task(t0);
    t.schedule_kind = ScheduleKind::Once;
    t.once = Once { datetime: t0 };

    let before = t0 - 86400 * 30;
    let after = t0 + 86400 * 30;
    assert_eq!(t.next_due_date(before, "UTC"), t0);
    assert_eq!(t.next_due_date(after, "UTC"), t0);
    assert!(!t.is_once_completed(t0 - 1));
    assert!(t.is_once_completed(t0));
    assert!(t.is_once_completed(t0 + 1));
}

#[test]
fn test_next_due_strictly_after_now() {
    let now = Utc.with_ymd_and_hms(2024, 3, 15, 9, 30, 0).unwrap().timestamp();
    let t = daily_noon_task(now);
    let nd = t.next_due_date(now, "UTC");
    assert!(nd > now);
    assert_eq!(nd, Utc.with_ymd_and_hms(2024, 3, 15, 12, 0, 0).unwrap().timestamp());

    let afternoon = Utc.with_ymd_and_hms(2024, 3, 15, 13, 0, 0).unwrap().timestamp();
    let nd2 = t.next_due_date(afternoon, "UTC");
    assert_eq!(nd2, Utc.with_ymd_and_hms(2024, 3, 16, 12, 0, 0).unwrap().timestamp());
}

#[test]
fn test_future_created_is_inactive_not_due_not_alerting() {
    let now = Utc.with_ymd_and_hms(2024, 3, 15, 9, 30, 0).unwrap().timestamp();
    let mut t = daily_noon_task(now);
    t.created_at = Some(now + 86400 * 7);
    assert!(t.is_inactive(now));
    assert!(!t.is_due(None, now, "UTC"));
    assert!(!t.is_alerting(now, "UTC"));
    assert_eq!(t.classify(None, now, "UTC"), TaskStatus::Inactive);
}

#[test]
fn test_completion_after_due_completes() {
    let now = Utc.with_ymd_and_hms(2024, 3, 15, 13, 0, 0).unwrap().timestamp();
    let t = daily_noon_task(now);
    let mrd = t.most_recent_due_date(now, "UTC");
    // Completed just after the due instant: completed, not due.
    assert!(t.is_completed(Some(mrd + 60), now, "UTC"));
    assert!(!t.is_due(Some(mrd + 60), now, "UTC"));
    // Completed before the due instant: not completed, due again.
    assert!(!t.is_completed(Some(mrd - 60), now, "UTC"));
    assert!(t.is_due(Some(mrd - 60), now, "UTC"));
    // An earlier extra completion cannot change the latest one.
    assert!(t.is_completed(Some(mrd + 60), now, "UTC"));
}

#[test]
fn test_alerting_window() {
    let now = Utc.with_ymd_and_hms(2024, 3, 15, 9, 30, 0).unwrap().timestamp();
    let mut t = daily_noon_task(now);
    // Next due at noon, 150 minutes ahead; a 3-hour window alerts.
    t.alerting_time = 180;
    assert!(t.is_alerting(now, "UTC"));
    // A 2-hour window does not reach it.
    t.alerting_time = 120;
    assert!(!t.is_alerting(now, "UTC"));
}

#[test]
fn test_classify_non_completeable_buckets() {
    let noon = Utc.with_ymd_and_hms(2024, 3, 15, 12, 0, 0).unwrap().timestamp();
    let mut t = daily_noon_task(noon);
    t.completeable = false;
    t.alerting_time = 60;

    // Half an hour past the due instant: recently occurred.
    let after = noon + 1800;
    assert_eq!(t.classify(None, after, "UTC"), TaskStatus::Completed);
    // Half an hour before the next noon: alerting.
    let before = noon + 86400 - 1800;
    assert_eq!(t.classify(None, before, "UTC"), TaskStatus::Alerting);
}

#[test]
fn test_readable_string_today_and_distant() {
    let now = Utc.with_ymd_and_hms(2024, 3, 15, 9, 30, 0).unwrap().timestamp();
    let t = daily_noon_task(now);
    assert_eq!(t.time_as_readable_string(now, "UTC"), "Today at 12:00");

    let evening = Utc.with_ymd_and_hms(2024, 3, 15, 13, 0, 0).unwrap().timestamp();
    assert_eq!(t.time_as_readable_string(evening, "UTC"), "Tomorrow at 12:00");

    let mut once = daily_noon_task(now);
    once.schedule_kind = ScheduleKind::Once;
    once.once = Once { datetime: now - 3600 };
    assert_eq!(once.time_as_readable_string(now, "UTC"), "No future occurrences");
}

#[test]
fn test_readable_string_far_day_names_the_date() {
    let now = Utc.with_ymd_and_hms(2024, 3, 15, 9, 30, 0).unwrap().timestamp();
    let mut t = plain_seed("monthwise").to_demo_task(now);
    t.schedule_kind = ScheduleKind::Monthwise;
    t.monthwise = chores::schedule::Monthwise { days: vec![25], time: 8 * 3600 };
    assert_eq!(t.time_as_readable_string(now, "UTC"), "Monday, March 25 at 08:00");
}

#[test]
fn test_is_due_on_date_monthwise() {
    let now = Utc.with_ymd_and_hms(2024, 3, 15, 9, 30, 0).unwrap().timestamp();
    let mut t = plain_seed("monthwise").to_demo_task(now);
    t.schedule_kind = ScheduleKind::Monthwise;
    t.monthwise = chores::schedule::Monthwise { days: vec![1, 15], time: 9 * 3600 };
    // Day numbers of 2024-03-15 and 2024-03-16 in the proleptic calendar.
    let mar15 = 738960;
    assert!(t.is_due_on_date(mar15, now, "UTC"));
    assert!(!t.is_due_on_date(mar15 + 1, now, "UTC"));
}

#[test]
fn test_db_schedule_parts_roundtrip() {
    let now = Utc::now().timestamp();
    let row = DbSchedule {
        id: 1,
        kind: "monthwise".to_string(),
        ndays_days: Some(0),
        ndays_time: Some("7:05".to_string()),
        nweeks_weeks: None,
        nweeks_sunday: Some(1),
        nweeks_monday: Some(0),
        nweeks_tuesday: None,
        nweeks_wednesday: None,
        nweeks_thursday: None,
        nweeks_friday: None,
        nweeks_saturday: None,
        nweeks_time: None,
        monthwise_days: Some("1, 15, junk, 31".to_string()),
        monthwise_time: Some("23:59".to_string()),
        weeks_of_month_weeks: Some("2,4".to_string()),
        weeks_of_month_sunday: None,
        weeks_of_month_monday: None,
        weeks_of_month_tuesday: None,
        weeks_of_month_wednesday: None,
        weeks_of_month_thursday: None,
        weeks_of_month_friday: None,
        weeks_of_month_saturday: None,
        weeks_of_month_time: None,
        certain_months_months: None,
        certain_months_days: None,
        certain_months_time: None,
        once_datetime: Some("2024-01-15T10:30:00Z".to_string()),
    };
    let (kind, n_days, n_weeks, monthwise, wom, _cm, once) = row.to_schedule_parts(now);
    assert!(matches!(kind, ScheduleKind::Monthwise));
    // A zero stored count is clamped up to the engine's minimum.
    assert_eq!(n_days.days, 1);
    assert_eq!(n_days.time, 7 * 3600 + 5 * 60);
    assert!(n_weeks.sub_schedule.sunday);
    assert!(!n_weeks.sub_schedule.monday);
    assert_eq!(monthwise.days, vec![1, 15, 31]);
    assert_eq!(monthwise.time, 23 * 3600 + 59 * 60);
    assert_eq!(wom.weeks, vec![2, 4]);
    assert_eq!(
        once.datetime,
        Utc.with_ymd_and_hms(2024, 1, 15, 10, 30, 0).unwrap().timestamp()
    );
}

#[test]
fn test_parse_int_list_skips_junk() {
    let v = chores::db::parse_int_list(&Some("1, -2, x, 31,,+4".to_string()));
    assert_eq!(v, vec![1, -2, 31, 4]);
    let empty = chores::db::parse_int_list(&None);
    assert!(empty.is_empty());
}

#[test]
fn test_seed_task_weekday_names() {
    let now = Utc::now().timestamp();
    let mut seed = plain_seed("n_weeks");
    seed.days = Some(vec!["Monday".to_string(), "FRIDAY".to_string()]);
    seed.time = Some("06:15".to_string());
    let t = seed.to_demo_task(now);
    assert!(matches!(t.schedule_kind, ScheduleKind::NWeeks));
    assert!(t.n_weeks.sub_schedule.monday);
    assert!(t.n_weeks.sub_schedule.friday);
    assert!(!t.n_weeks.sub_schedule.tuesday);
    assert_eq!(t.n_weeks.sub_schedule.time, 6 * 3600 + 15 * 60);
    assert!(chores::seed::default_completeable());
}

#[test]
fn test_task_completion_ordering() {
    let now = Utc.with_ymd_and_hms(2024, 3, 15, 13, 0, 0).unwrap().timestamp();
    let mut schedule = plain_seed("n_days").to_demo_task(now).to_schedule();
    schedule.n_days = NDays { days: 1, time: 12 * 3600 };
    let mrd_expected = Utc.with_ymd_and_hms(2024, 3, 15, 12, 0, 0).unwrap().timestamp();

    let task = chores::task::Task {
        name: "t".to_string(),
        schedule,
        completions: Some(vec![
            chores::task::Completion { when: mrd_expected + 30 },
            chores::task::Completion { when: mrd_expected - 7200 },
        ]),
        alerting_time: Some(600),
    };
    // The latest completion wins regardless of list order.
    let last = task.last_completion().unwrap();
    assert_eq!(last.when, mrd_expected + 30);
    assert!(!task.is_due(now, "UTC"));
    assert!(!task.is_alerting(now, "UTC"));
}

#[test]
fn test_task_alerting_window() {
    // A task alerts exactly while the next due instant sits inside the
    // alerting window after now.
    let now = Utc.with_ymd_and_hms(2024, 3, 15, 11, 30, 0).unwrap().timestamp();
    let mut schedule = plain_seed("n_days").to_demo_task(now).to_schedule();
    schedule.n_days = NDays { days: 1, time: 12 * 3600 };
    let mut task = chores::task::Task {
        name: "t".to_string(),
        schedule,
        completions: None,
        alerting_time: Some(3600),
    };
    // Next due at noon, half an hour ahead of an hour-long window.
    assert!(task.is_alerting(now, "UTC"));
    task.alerting_time = Some(600);
    assert!(!task.is_alerting(now, "UTC"));
    // With no lead time the window is empty.
    task.alerting_time = None;
    assert!(!task.is_alerting(now, "UTC"));
}

#[test]
fn test_config_touch_mode() {
    let c = chores::config::Config { timezone: "UTC".to_string(), touch_mode: true };
    assert!(chores::config::is_touch_mode(&c));
    let c2 = chores::config::Config { timezone: "UTC".to_string(), touch_mode: false };
    assert!(!chores::config::is_touch_mode(&c2));
}

#[test]
fn test_timeparse_edges() {
    assert_eq!(chores::timeparse::parse_hm("9:05"), Some(9 * 3600 + 5 * 60));
    assert_eq!(chores::timeparse::parse_hm("23:59"), Some(23 * 3600 + 59 * 60));
    assert_eq!(chores::timeparse::parse_hm("24:00"), None);
    assert_eq!(chores::timeparse::parse_hm("12:60"), None);
    assert_eq!(chores::timeparse::parse_hm("1200"), None);
    assert_eq!(chores::timeparse::parse_ymd("2024-02-29"), Some((2024, 2, 29)));
    assert_eq!(chores::timeparse::parse_ymd("2023-02-29"), None);
    assert_eq!(chores::timeparse::parse_ymd("2023-13-01"), None);
}

#[test]
fn test_next_due_after_skips_same_day() {
    let now = Utc.with_ymd_and_hms(2024, 3, 15, 9, 30, 0).unwrap().timestamp();
    let t = daily_noon_task(now);
    let s = t.to_schedule();
    let next = chores::search::next_due_after(&s, None, None, now, "UTC");
    // Strictly after the day of `now`: tomorrow's noon even though today's
    // has not yet passed.
    assert_eq!(next, Utc.with_ymd_and_hms(2024, 3, 16, 12, 0, 0).unwrap().timestamp());
}

#[test]
fn test_empty_weekday_mask_falls_back() {
    // No active weekday: the search exhausts its horizon and answers the
    // deterministic fallback, `now` minus 7 weeks worth of days.
    let now = Utc.with_ymd_and_hms(2024, 3, 15, 9, 30, 0).unwrap().timestamp();
    let mut t = plain_seed("n_weeks").to_demo_task(now);
    t.n_weeks = NWeeks {
        weeks: 1,
        sub_schedule: chores::schedule::DaysOfWeek {
            sunday: false,
            monday: false,
            tuesday: false,
            wednesday: false,
            thursday: false,
            friday: false,
            saturday: false,
            time: 9 * 3600,
        },
    };
    assert_eq!(t.most_recent_due_date(now, "UTC"), now - 7 * 86400);
}
