use chores::form::{FormErrors, TaskForm};

#[test]
fn test_form_errors_default() {
    let errors = FormErrors::default();
    assert!(!errors.has_errors());
    assert!(errors.monthwise_days.is_none());
    assert!(errors.general.is_none());
}

#[test]
fn test_form_errors_with_monthwise_error() {
    let errors = FormErrors {
        monthwise_days: Some("Invalid day format".to_string()),
        certain_months_days: None,
        general: None,
    };
    assert!(errors.has_errors());
}

#[test]
fn test_form_errors_with_general_error() {
    let errors = FormErrors {
        monthwise_days: None,
        certain_months_days: None,
        general: Some("Something went wrong".to_string()),
    };
    assert!(errors.has_errors());
}

#[test]
fn test_form_errors_with_multiple_errors() {
    let errors = FormErrors {
        monthwise_days: Some("Invalid day".to_string()),
        certain_months_days: None,
        general: Some("General error".to_string()),
    };
    assert!(errors.has_errors());
}

#[test]
fn test_form_errors_with_certain_months_error() {
    let errors = FormErrors {
        monthwise_days: None,
        certain_months_days: Some("Invalid day format".to_string()),
        general: None,
    };
    assert!(errors.has_errors());
}

#[test]
fn test_task_form_validate_valid_monthwise() {
    let form = TaskForm {
        name: "Test Task".to_string(),
        details: String::new(),
        schedule_type: "monthwise".to_string(),
        monthwise_days: Some("1, 15".to_string()),
        monthwise_time: Some("10:00".to_string()),
        ..Default::default()
    };

    let errors = form.validate();
    assert!(!errors.has_errors());
}

#[test]
fn test_task_form_validate_invalid_monthwise_format() {
    let form = TaskForm {
        name: "Test Task".to_string(),
        details: String::new(),
        schedule_type: "monthwise".to_string(),
        monthwise_days: Some("abc, xyz".to_string()),
        monthwise_time: Some("10:00".to_string()),
        ..Default::default()
    };

    let errors = form.validate();
    assert!(errors.has_errors());
    assert!(errors.monthwise_days.is_some());
}

#[test]
fn test_task_form_validate_monthwise_out_of_range() {
    let form = TaskForm {
        name: "Test Task".to_string(),
        details: String::new(),
        schedule_type: "monthwise".to_string(),
        monthwise_days: Some("1, 32".to_string()),
        monthwise_time: Some("10:00".to_string()),
        ..Default::default()
    };

    let errors = form.validate();
    assert!(errors.has_errors());
    assert!(errors.monthwise_days.is_some());
    assert!(errors.monthwise_days.as_ref().unwrap().contains("out of range"));
}

#[test]
fn test_task_form_validate_monthwise_empty() {
    let form = TaskForm {
        name: "Test Task".to_string(),
        details: String::new(),
        schedule_type: "monthwise".to_string(),
        monthwise_days: Some("".to_string()),
        monthwise_time: Some("10:00".to_string()),
        ..Default::default()
    };

    let errors = form.validate();
    assert!(errors.has_errors());
    assert!(errors.monthwise_days.is_some());
}

#[test]
fn test_task_form_validate_monthwise_none() {
    let form = TaskForm {
        name: "Test Task".to_string(),
        details: String::new(),
        schedule_type: "monthwise".to_string(),
        monthwise_days: None,
        monthwise_time: Some("10:00".to_string()),
        ..Default::default()
    };

    let errors = form.validate();
    assert!(errors.has_errors());
    assert!(errors.monthwise_days.is_some());
}

#[test]
fn test_task_form_validate_non_monthwise_schedule() {
    let form = TaskForm {
        name: "Test Task".to_string(),
        details: String::new(),
        schedule_type: "n_days".to_string(),
        monthwise_days: Some("invalid".to_string()),
        n_days_count: Some(7),
        ..Default::default()
    };

    let errors = form.validate();
    assert!(!errors.has_errors());
}

#[test]
fn test_task_form_validate_monthwise_with_ranges() {
    let form = TaskForm {
        name: "Test Task".to_string(),
        details: String::new(),
        schedule_type: "monthwise".to_string(),
        monthwise_days: Some("1-5, 10, 15-20".to_string()),
        monthwise_time: Some("10:00".to_string()),
        ..Default::default()
    };

    let errors = form.validate();
    assert!(!errors.has_errors());
}

#[test]
fn test_task_form_validate_monthwise_invalid_range() {
    let form = TaskForm {
        name: "Test Task".to_string(),
        details: String::new(),
        schedule_type: "monthwise".to_string(),
        monthwise_days: Some("10-5".to_string()),
        monthwise_time: Some("10:00".to_string()),
        ..Default::default()
    };

    let errors = form.validate();
    assert!(errors.has_errors());
    assert!(errors.monthwise_days.is_some());
}

#[test]
fn test_demo_task_default_n_days() {
    let n_days = chores::tasks::default_n_days();
    assert_eq!(n_days.days, 1);
}

#[test]
fn test_demo_task_default_n_weeks() {
    let n_weeks = chores::tasks::default_n_weeks();
    assert_eq!(n_weeks.weeks, 1);
    let schedule = &n_weeks.sub_schedule;
    let any_active = schedule.sunday || schedule.monday || schedule.tuesday
        || schedule.wednesday || schedule.thursday || schedule.friday || schedule.saturday;
    assert!(any_active);
}

#[test]
fn test_demo_task_default_monthwise() {
    let monthwise = chores::tasks::default_monthwise();
    assert!(!monthwise.days.is_empty());
    for day in &monthwise.days {
        assert!(*day >= 1 && *day <= 31);
    }
}

#[test]
fn test_demo_task_default_weeks_of_month() {
    let wom = chores::tasks::default_weeks_of_month();
    assert!(!wom.weeks.is_empty());
    for week in &wom.weeks {
        assert!(*week >= 1 && *week <= 5);
    }
}

#[test]
fn test_to_demo_task_reads_form_fields() {
    let now = chrono::Utc::now().timestamp();
    let base = chores::form::TaskForm::default().to_demo_task(
        "base",
        &seed_base(now),
        now,
        "UTC",
    );
    let form = TaskForm {
        name: "Laundry".to_string(),
        details: "whites".to_string(),
        schedule_type: "monthwise".to_string(),
        monthwise_days: Some("3, 7-9".to_string()),
        monthwise_time: Some("06:30".to_string()),
        alerting_time: Some(60),
        completeable: Some("on".to_string()),
        ..Default::default()
    };
    let t = form.to_demo_task("42", &base, now, "UTC");
    assert_eq!(t.id, "42");
    assert_eq!(t.name, "Laundry");
    assert!(matches!(t.schedule_kind, chores::schedule::ScheduleKind::Monthwise));
    assert_eq!(t.monthwise.days, vec![3, 7, 8, 9]);
    assert_eq!(t.monthwise.time, 6 * 3600 + 30 * 60);
    assert_eq!(t.alerting_time, 60);
    assert!(t.completeable);
}

fn seed_base(now: i64) -> chores::tasks::DemoTask {
    chores::seed::SeedTask {
        name: String::new(),
        details: String::new(),
        schedule_type: "n_days".to_string(),
        n_days: None,
        n_weeks: None,
        time: None,
        days: None,
        days_of_month: None,
        weeks: None,
        months: None,
        alerting_time: None,
        completeable: true,
    }
    .to_demo_task(now)
}
