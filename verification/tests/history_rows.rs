use std::str::FromStr;

use chrono::{Datelike, NaiveDate};
use rust_decimal::Decimal;
use telemetry_scheduler::models::decimal::{decimal_round_dp, DecimalValue};
use telemetry_scheduler::schedules::devices::DEFAULT_DATE_DAY;
use telemetry_scheduler::schedules::devices_l1_totalization::l1_totalization_record;
use telemetry_scheduler::schedules::energy::{day_windows, energy_consumption_forecast_rows, first_measured_hour};
use telemetry_scheduler::schedules::energy_efficiency::{
    energy_efficiency_hour_records, energy_efficiency_hour_records_checked,
};
use telemetry_scheduler::schedules::last_device_telemetry_time::{days_to_reprocess, last_telemetry_record};

fn dec(text: &str) -> DecimalValue {
    let d = Decimal::from_str(text).unwrap();
    DecimalValue::from_parts(d.mantissa(), d.scale(), d.is_sign_negative()).unwrap()
}

fn value(v: &DecimalValue) -> Decimal {
    Decimal::from_i128_with_scale(v.mantissa(), v.scale())
}

fn parts(v: &DecimalValue) -> (i128, u32) {
    (v.mantissa(), v.scale())
}

#[test]
fn l1_totalization_rounds_the_share_to_two_places() {
    let r = l1_totalization_record(Some(3), 4, "DAC1", 100, 200, 10, 20, dec("12.345"), "prog", "2024-03-01");
    assert_eq!(r.asset_reference_id, Some(3));
    assert_eq!(r.machine_reference_id, 4);
    assert_eq!(r.device_code, "DAC1");
    assert_eq!((r.seconds_on, r.seconds_off, r.seconds_on_outside_programming, r.seconds_must_be_off), (100, 200, 10, 20));
    assert_eq!(parts(&r.percentage_on_outside_programming), (1234, 2));
    assert_eq!(r.programming, "prog");
    assert_eq!(r.record_date, NaiveDate::from_ymd_opt(2024, 3, 1).unwrap().num_days_from_ce());
    let r = l1_totalization_record(None, 4, "DAC1", 0, 0, 0, 0, dec("12.355"), "", "01/03/2024");
    assert_eq!(parts(&r.percentage_on_outside_programming), (1236, 2));
    assert_eq!(r.record_date, DEFAULT_DATE_DAY);
    let r = l1_totalization_record(None, 4, "DAC1", 0, 0, 0, 0, dec("-0.5"), "", "2024-03-01");
    assert_eq!(parts(&r.percentage_on_outside_programming), (-5, 1));
    let r = l1_totalization_record(None, 4, "DAC1", 0, 0, 0, 0, dec("-2.675"), "", "2024-03-01");
    assert_eq!(parts(&r.percentage_on_outside_programming), (-268, 2));
}

#[test]
fn efficiency_rows_follow_the_hours_of_use() {
    let mut seconds = vec![0; 24];
    seconds[0] = 1800;
    seconds[13] = 3600;
    seconds[23] = 1000;
    let rows = energy_efficiency_hour_records("DAC7", 9, Some(dec("10.5")), "2024-03-01", &seconds);
    assert_eq!(rows.len(), 24);
    let midnight = NaiveDate::from_ymd_opt(2024, 3, 1).unwrap().and_hms_opt(0, 0, 0).unwrap().and_utc().timestamp();
    for (h, row) in rows.iter().enumerate() {
        assert_eq!(row.machine_id, 9);
        assert_eq!(row.device_code, "DAC7");
        assert_eq!(row.record_date, midnight + 3600 * h as i64);
        let util = Decimal::from(seconds[h]) / Decimal::new(3600, 0);
        assert_eq!(parts(&row.utilization_time), (util.mantissa(), util.scale()));
        let cons = (Decimal::from_str("10.5").unwrap() * util).round_dp(3);
        assert_eq!(parts(&row.consumption), (cons.mantissa(), cons.scale()));
    }
    assert_eq!(value(&rows[0].utilization_time), Decimal::from_str("0.5").unwrap());
    assert_eq!(value(&rows[0].consumption), Decimal::from_str("5.25").unwrap());
    assert_eq!(value(&rows[13].consumption), Decimal::from_str("10.5").unwrap());
    assert_eq!(value(&rows[23].consumption), Decimal::from_str("2.917").unwrap());
}

#[test]
fn efficiency_rows_without_power_are_zero() {
    let seconds = vec![3600; 24];
    let rows = energy_efficiency_hour_records("DUT1", 1, None, "2024-01-31", &seconds);
    for row in &rows {
        assert_eq!(row.consumption.mantissa(), 0);
        assert_eq!(value(&row.utilization_time), Decimal::ONE);
    }
}

#[test]
fn efficiency_rows_need_a_whole_day_and_a_date() {
    assert!(energy_efficiency_hour_records_checked("D", 1, None, "2024-03-01", &vec![0; 23]).is_none());
    assert!(energy_efficiency_hour_records_checked("D", 1, None, "2024/03/01", &vec![0; 24]).is_none());
    let huge = dec("79228162514264337593543950335");
    assert!(energy_efficiency_hour_records_checked("D", 1, Some(huge), "2024-03-01", &vec![i32::MAX; 24]).is_none());
    assert!(energy_efficiency_hour_records_checked("D", 1, Some(huge), "2024-03-01", &vec![0; 24]).is_some());
}

#[test]
fn last_telemetry_row_reads_its_time() {
    let r = last_telemetry_record("2024-03-01T10:00:00", "DAC2");
    assert_eq!(r.device_code, "DAC2");
    assert_eq!(r.record_date, 1_709_287_200);
    assert_eq!(last_telemetry_record("yesterday", "DAC2").record_date, 0);
}

#[test]
fn past_days_are_reprocessed_after_more_than_an_hour_of_silence() {
    let day = |y, m, d| NaiveDate::from_ymd_opt(y, m, d).unwrap().num_days_from_ce();
    let at = |y, m, d, h| NaiveDate::from_ymd_opt(y, m, d).unwrap().and_hms_opt(h, 0, 0).unwrap().and_utc().timestamp();
    assert_eq!(days_to_reprocess(at(2024, 2, 28, 23), day(2024, 3, 1)), vec![day(2024, 2, 28), day(2024, 2, 29)]);
    // exactly two hours before the day starts
    assert_eq!(days_to_reprocess(at(2024, 2, 29, 22), day(2024, 3, 1)), vec![day(2024, 2, 29)]);
    // within the last two hours of the previous day
    assert_eq!(days_to_reprocess(at(2024, 2, 29, 22) + 1, day(2024, 3, 1)), Vec::<i32>::new());
    assert_eq!(days_to_reprocess(at(2024, 3, 1, 5), day(2024, 3, 1)), Vec::<i32>::new());
    assert_eq!(days_to_reprocess(at(1969, 12, 30, 0), day(1970, 1, 1)), vec![day(1969, 12, 30), day(1969, 12, 31)]);
}

#[test]
fn an_hour_is_forecast_for_the_five_next_weeks() {
    let date = NaiveDate::from_ymd_opt(2024, 3, 1).unwrap().and_hms_opt(14, 0, 0).unwrap().and_utc().timestamp();
    let rows = energy_consumption_forecast_rows(12, date, Some(dec("3.75")));
    assert_eq!(rows.len(), 5);
    for (k, row) in rows.iter().enumerate() {
        assert_eq!(row.electric_circuit_id, 12);
        assert_eq!(row.record_date, date + 7 * 86_400 * (k as i64 + 1));
        assert_eq!(value(&row.consumption_forecast), Decimal::from_str("3.75").unwrap());
    }
    let expected_last = NaiveDate::from_ymd_opt(2024, 4, 5).unwrap().and_hms_opt(14, 0, 0).unwrap().and_utc().timestamp();
    assert_eq!(rows[4].record_date, expected_last);
    let rows = energy_consumption_forecast_rows(12, date, None);
    assert!(rows.iter().all(|r| r.consumption_forecast.mantissa() == 0));
}

#[test]
fn rounding_matches_rust_decimal() {
    for text in ["2.5", "3.5", "-2.5", "-3.5", "1.2345", "-1.2355", "0.005", "-0.004", "7", "12.3", "-0.00", "-0.0004",
                 "79228162514264337593543950.335", "0.0000000000000000000000000005"] {
        for dp in [0u32, 1, 2, 3, 5, 30] {
            let expected = Decimal::from_str(text).unwrap().round_dp(dp);
            let got = decimal_round_dp(&dec(text), dp);
            assert_eq!(value(&got), expected, "{} at {}", text, dp);
            assert_eq!(got.scale(), expected.scale(), "{} at {}", text, dp);
            assert_eq!(got.is_negative(), expected.is_sign_negative(), "{} at {}", text, dp);
        }
    }
}

#[test]
fn each_day_gets_a_window_up_to_a_quarter_past_the_next_midnight() {
    let d = NaiveDate::from_ymd_opt(2024, 2, 28).unwrap().num_days_from_ce();
    let w = day_windows(d, d + 2);
    assert_eq!(w.len(), 3);
    let midnight = NaiveDate::from_ymd_opt(2024, 2, 28).unwrap().and_hms_opt(0, 0, 0).unwrap().and_utc().timestamp();
    for (k, win) in w.iter().enumerate() {
        assert_eq!(win.day, d + k as i32);
        assert_eq!(win.start, midnight + 86_400 * k as i64);
        assert_eq!(win.end, midnight + 86_400 * (k as i64 + 1) + 900);
    }
    assert!(day_windows(d, d - 1).is_empty());
    assert_eq!(day_windows(d, d).len(), 1);
}

#[test]
fn first_directly_measured_hour_is_found() {
    assert_eq!(first_measured_hour(&vec![(false, false), (true, true), (true, false), (true, false)]), Some(2));
    assert_eq!(first_measured_hour(&vec![(true, false)]), Some(0));
    assert_eq!(first_measured_hour(&vec![(false, false), (true, true)]), None);
    assert_eq!(first_measured_hour(&vec![]), None);
}

#[test]
fn negative_zero_keeps_its_sign() {
    let neg_zero = DecimalValue::from_parts(0, 3, true).unwrap();
    let mut expected = Decimal::from_i128_with_scale(0, 3);
    expected.set_sign_negative(true);
    for dp in [0u32, 1, 3, 5] {
        let got = decimal_round_dp(&neg_zero, dp);
        assert_eq!(got.mantissa(), 0);
        assert_eq!(got.is_negative(), expected.round_dp(dp).is_sign_negative());
        assert!(got.is_negative());
    }
    // a negative number rounded to zero is a positive zero
    let z = decimal_round_dp(&dec("-0.004"), 2);
    assert_eq!(z.mantissa(), 0);
    assert!(!z.is_negative());
    assert_eq!(z.scale(), 2);
    let r = l1_totalization_record(None, 1, "D", 0, 0, 0, 0, neg_zero, "", "2024-03-01");
    assert!(r.percentage_on_outside_programming.is_negative());
    assert!(!DecimalValue::new(0, 2).unwrap().is_negative());
    assert!(DecimalValue::from_parts(5, 2, true).is_none());
    assert!(DecimalValue::from_parts(-5, 2, false).is_none());
}
