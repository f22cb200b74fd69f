use chrono::{Datelike, NaiveDate};
use telemetry_scheduler::models::decimal::{optional_decimal_eq, DecimalValue};
use telemetry_scheduler::schedules::waters::{
    forecast_days, get_last_three_days_weeks, water_hour_plan, verify_forecast_usage, verify_forecast_usage_checked, weekday_of,
    WeekDay,
};
use telemetry_scheduler::schedules::devices::DEFAULT_DATE_DAY;

fn day(y: i32, m: u32, d: u32) -> i32 {
    NaiveDate::from_ymd_opt(y, m, d).unwrap().num_days_from_ce()
}

fn dec(m: i128, s: u32) -> DecimalValue {
    DecimalValue::new(m, s).unwrap()
}

#[test]
fn weekday_matches_the_calendar() {
    assert_eq!(weekday_of(1), WeekDay::Monday);
    assert_eq!(weekday_of(day(2024, 3, 1)), WeekDay::Friday);
    assert_eq!(weekday_of(day(2024, 3, 3)), WeekDay::Sunday);
    assert_eq!(weekday_of(day(1970, 1, 1)), WeekDay::Thursday);
    assert_eq!(weekday_of(0), WeekDay::Sunday);
}

#[test]
fn last_three_weeks_go_back_a_week_at_a_time() {
    let d = day(2024, 3, 1);
    assert_eq!(get_last_three_days_weeks(d), vec![day(2024, 2, 23), day(2024, 2, 16), day(2024, 2, 9)]);
}

#[test]
fn forecast_days_drop_those_before_installation() {
    let d = day(2024, 3, 1);
    assert_eq!(forecast_days(d, "2024/02/10"), Some(vec![day(2024, 2, 23), day(2024, 2, 16)]));
    assert_eq!(forecast_days(d, "2024/02/09"), Some(vec![day(2024, 2, 23), day(2024, 2, 16), day(2024, 2, 9)]));
    assert_eq!(forecast_days(d, "2024/03/01"), Some(vec![]));
    assert_eq!(forecast_days(d, "2024-02-10"), None);
}

#[test]
fn forecast_goes_in_the_column_of_its_weekday() {
    // (10.5 + 1.5) / (2 + 1) = 4
    let f = verify_forecast_usage(WeekDay::Wednesday, 7, day(2024, 3, 13), dec(105, 1), dec(15, 1), 2);
    assert_eq!(f.unit_id, 7);
    assert_eq!(f.forecast_date, day(2024, 3, 1));
    assert!(optional_decimal_eq(&f.wednesday, &Some(dec(4, 0))));
    for other in [f.monday, f.tuesday, f.thursday, f.friday, f.saturday, f.sunday] {
        assert!(other.is_none());
    }
    // 10 / 4 = 2.5
    let g = verify_forecast_usage(WeekDay::Sunday, 1, day(2023, 12, 31), dec(7, 0), dec(3, 0), 3);
    assert_eq!(g.forecast_date, day(2023, 12, 1));
    assert!(optional_decimal_eq(&g.sunday, &Some(dec(25, 1))));
    assert!(g.monday.is_none());
}

#[test]
fn forecast_refuses_impossible_arithmetic() {
    // dividing by zero days
    assert!(verify_forecast_usage_checked(WeekDay::Monday, 1, day(2024, 3, 4), dec(1, 0), dec(1, 0), -1).is_none());
    assert!(verify_forecast_usage_checked(WeekDay::Monday, 1, day(2024, 3, 4), dec(1, 0), dec(1, 0), i64::MAX).is_none());
    let max = dec(0xFFFF_FFFF_FFFF_FFFF_FFFF_FFFF, 0);
    assert!(verify_forecast_usage_checked(WeekDay::Monday, 1, day(2024, 3, 4), max, max, 0).is_none());
    assert!(verify_forecast_usage_checked(WeekDay::Monday, 1, day(2024, 3, 4), dec(1, 0), dec(1, 0), 0).is_some());
}

#[test]
fn forecast_date_falls_back_to_the_default_date() {
    let f = verify_forecast_usage(WeekDay::Monday, 1, i32::MAX, dec(1, 0), dec(1, 0), 0);
    assert_eq!(f.forecast_date, DEFAULT_DATE_DAY);
    assert_eq!(DEFAULT_DATE_DAY, day(1970, 1, 1));
}

fn at(y: i32, m: u32, d: u32, h: u32) -> i64 {
    NaiveDate::from_ymd_opt(y, m, d).unwrap().and_hms_opt(h, 0, 0).unwrap().and_utc().timestamp()
}

#[test]
fn water_hours_catch_up_since_the_last_stored_hour() {
    let plan = water_hour_plan(Some(at(2024, 3, 1, 20)), at(2024, 3, 2, 1));
    let times: Vec<i64> = plan.iter().map(|s| s.time).collect();
    assert_eq!(times, vec![at(2024, 3, 1, 21), at(2024, 3, 1, 22), at(2024, 3, 1, 23), at(2024, 3, 2, 0), at(2024, 3, 2, 1)]);
    let flags: Vec<bool> = plan.iter().map(|s| s.is_measured_consumption).collect();
    assert_eq!(flags, vec![true, true, true, true, false]);
    // a stored hour after the reading gives nothing to write
    assert!(water_hour_plan(Some(at(2024, 3, 2, 5)), at(2024, 3, 2, 1)).is_empty());
}

#[test]
fn water_hours_from_midnight_without_a_gap() {
    // no stored consumption: the day's hours up to the reading's
    let plan = water_hour_plan(None, at(2024, 3, 2, 2) + 1_800);
    let times: Vec<i64> = plan.iter().map(|s| s.time).collect();
    assert_eq!(times, vec![at(2024, 3, 2, 0), at(2024, 3, 2, 1), at(2024, 3, 2, 2)]);
    assert_eq!(plan.iter().filter(|s| !s.is_measured_consumption).count(), 1);
    assert!(!plan[2].is_measured_consumption);
    // the stored consumption is the hour right before: the same
    let plan = water_hour_plan(Some(at(2024, 3, 2, 1)), at(2024, 3, 2, 2));
    assert_eq!(plan.len(), 3);
    assert_eq!(plan[0].time, at(2024, 3, 2, 0));
}
