use telemetry_scheduler::schedules::time_slots::{group_by_slot, offline_check_minutes, quarter_hour_slot, ten_minute_slot};
use telemetry_scheduler::telemetry_payloads::dac_l1::temperature_only::{require_temperatures, TsucTimeline};
use telemetry_scheduler::telemetry_payloads::dut_l1::temp_difference::check_time_forward;

#[test]
fn tsuc_first_reading_starts_a_run_without_l1() {
    let mut t = TsucTimeline::new();
    let gap = t.begin_step(1_000).unwrap();
    assert!(!gap.reset);
    assert_eq!(gap.fill_seconds, 0);
    assert_eq!(t.finish_step(1_000, true), None);
}

#[test]
fn tsuc_gives_no_l1_during_warmup_then_the_verdict() {
    let mut t = TsucTimeline::new();
    t.begin_step(0).unwrap();
    assert_eq!(t.finish_step(0, true), None);
    let gap = t.begin_step(5).unwrap();
    assert!(!gap.reset);
    assert_eq!(gap.fill_seconds, 4);
    assert_eq!(t.finish_step(5, false), None);
    for ts in [100, 200, 299] {
        t.begin_step(ts).unwrap();
        assert_eq!(t.finish_step(ts, true), None);
    }
    t.begin_step(300).unwrap();
    assert_eq!(t.finish_step(300, false), Some(false));
    t.begin_step(301).unwrap();
    assert_eq!(t.finish_step(301, true), Some(true));
}

#[test]
fn tsuc_refuses_readings_out_of_order() {
    let mut t = TsucTimeline::new();
    t.begin_step(50).unwrap();
    t.finish_step(50, true);
    assert_eq!(t.begin_step(50).err(), Some("last_ts >= ts".to_string()));
    assert_eq!(t.begin_step(10).err(), Some("last_ts >= ts".to_string()));
    let gap = t.begin_step(51).unwrap();
    assert_eq!(gap.fill_seconds, 0);
}

#[test]
fn tsuc_silence_of_more_than_five_minutes_starts_over() {
    let mut t = TsucTimeline::new();
    t.begin_step(0).unwrap();
    t.finish_step(0, true);
    t.begin_step(300).unwrap();
    assert_eq!(t.finish_step(300, true), Some(true));
    // exactly five minutes of silence keeps the run
    let gap = t.begin_step(600).unwrap();
    assert!(!gap.reset);
    assert_eq!(gap.fill_seconds, 299);
    assert_eq!(t.finish_step(600, true), Some(true));
    // more than five minutes starts a new run, which first warms up again
    let gap = t.begin_step(901).unwrap();
    assert!(gap.reset);
    assert_eq!(gap.fill_seconds, 0);
    assert_eq!(t.finish_step(901, true), None);
    t.begin_step(1_200).unwrap();
    assert_eq!(t.finish_step(1_200, true), None);
    t.begin_step(1_201).unwrap();
    assert_eq!(t.finish_step(1_201, false), Some(false));
}

#[test]
fn ten_minute_slots_start_on_the_ten_minutes() {
    // 2024-03-01T12:37:45Z
    assert_eq!(ten_minute_slot(1_709_296_665), 1_709_296_200);
    assert_eq!(ten_minute_slot(1_709_296_200), 1_709_296_200);
    assert_eq!(ten_minute_slot(599), 0);
    assert_eq!(ten_minute_slot(-1), -600);
    assert_eq!(ten_minute_slot(-600), -600);
}

#[test]
fn demand_slot_is_the_quarter_hour_before_the_reading() {
    let day_start = 1_709_251_200; // 2024-03-01T00:00:00Z
    // readings of the day's first quarter hour belong to the previous day
    assert_eq!(quarter_hour_slot(day_start, day_start), None);
    assert_eq!(quarter_hour_slot(day_start + 899, day_start), None);
    // 00:15:00 closes the 00:00 slot, 00:29:59 still the 00:00 one, 00:30 the 00:15 one
    assert_eq!(quarter_hour_slot(day_start + 900, day_start), Some(day_start));
    assert_eq!(quarter_hour_slot(day_start + 1_799, day_start), Some(day_start));
    assert_eq!(quarter_hour_slot(day_start + 1_800, day_start), Some(day_start + 900));
    // a reading of the next day's first minutes closes this day's last slot
    assert_eq!(quarter_hour_slot(day_start + 86_400 + 60, day_start), Some(day_start + 86_400 - 900));
}

#[test]
fn offline_minutes_prefer_the_client_setting() {
    assert_eq!(offline_check_minutes(Some(45), Some(60)), 45);
    assert_eq!(offline_check_minutes(None, Some(600)), 10);
    assert_eq!(offline_check_minutes(None, Some(90)), 1);
    assert_eq!(offline_check_minutes(None, None), 5);
    assert_eq!(offline_check_minutes(None, Some(-90)), -1);
}

#[test]
fn readings_are_grouped_by_their_slot() {
    let times = [0i64, 30, 610, 599, 1_250, 615, 1_199];
    let slots: Vec<i64> = times.iter().map(|t| ten_minute_slot(*t)).collect();
    let groups = group_by_slot(&slots);
    let summary: Vec<(i64, Vec<usize>)> = groups.iter().map(|g| (g.slot, g.members.clone())).collect();
    assert_eq!(summary, vec![(0, vec![0, 1, 3]), (600, vec![2, 5, 6]), (1_200, vec![4])]);
    assert!(group_by_slot(&vec![]).is_empty());
}

#[test]
fn warmup_holds_over_a_long_run_of_readings() {
    // readings 1 s apart, a 10 minute silence, then readings 20 s apart
    let mut times: Vec<i64> = (0..400).collect();
    times.extend((0..40).map(|k| 999 + 20 * k));
    let mut t = TsucTimeline::new();
    let mut run_start = times[0];
    let mut prev: Option<i64> = None;
    for &ts in &times {
        if let Some(p) = prev {
            if ts - p > 300 {
                run_start = ts;
            }
        }
        let gap = t.begin_step(ts).unwrap();
        assert_eq!(gap.reset, prev.map_or(false, |p| ts - p > 300));
        let out = t.finish_step(ts, true);
        assert_eq!(out, if ts - run_start < 300 { None } else { Some(true) }, "at {}", ts);
        prev = Some(ts);
    }
}

#[test]
fn temperatures_are_all_required() {
    assert_eq!(require_temperatures(Some(1), Some(2), Some(3)), Ok((1, 2, 3)));
    assert_eq!(require_temperatures::<i32>(None, None, None), Err("No Tamb".to_string()));
    assert_eq!(require_temperatures(Some(1), None, None), Err("No Tsuc".to_string()));
    assert_eq!(require_temperatures(Some(1), Some(2), None), Err("No Tliq".to_string()));
}

#[test]
fn time_must_move_forward() {
    assert_eq!(check_time_forward(None, 5), Ok(()));
    assert_eq!(check_time_forward(Some(4), 5), Ok(()));
    assert_eq!(check_time_forward(Some(5), 5), Err("tempo andou para trás".to_string()));
    assert_eq!(check_time_forward(Some(6), 5), Err("tempo andou para trás".to_string()));
}
