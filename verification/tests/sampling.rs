use telemetry_scheduler::telemetry_payloads::pack_time::read_pack_time;
use telemetry_scheduler::telemetry_payloads::sampling::{check_pack_timing, plan_gap_fill, plan_pack_samples, window_offset};

#[test]
fn gap_fill_without_previous_sample_is_empty() {
    let g = plan_gap_fill(None, 1000, 15, 1);
    assert_eq!(g.count, 0);
    assert!(g.repeat_last);
}

#[test]
fn short_gap_repeats_last_sample() {
    let g = plan_gap_fill(Some(100), 110, 15, 1);
    assert_eq!(g.count, 9);
    assert!(g.repeat_last);
}

#[test]
fn long_gap_is_filled_with_empty_samples() {
    let g = plan_gap_fill(Some(100), 117, 15, 1);
    assert_eq!(g.count, 16);
    assert!(!g.repeat_last);
    let g = plan_gap_fill(Some(100), 116, 15, 1);
    assert_eq!(g.count, 15);
    assert!(g.repeat_last);
}

#[test]
fn gap_fill_counts_steps_rounding_down() {
    let g = plan_gap_fill(Some(0), 17, 120, 5);
    assert_eq!(g.count, 3);
    assert!(g.repeat_last);
    let g = plan_gap_fill(Some(0), 200, 120, 5);
    assert_eq!(g.count, 39);
    assert!(!g.repeat_last);
    // a timestamp in the past gives no placeholders
    let g = plan_gap_fill(Some(50), 10, 120, 5);
    assert_eq!(g.count, 0);
}

#[test]
fn window_offset_is_half_open() {
    assert_eq!(window_offset(100, 100, 200), Some(0));
    assert_eq!(window_offset(199, 100, 200), Some(99));
    assert_eq!(window_offset(200, 100, 200), None);
    assert_eq!(window_offset(99, 100, 200), None);
}

#[test]
fn pack_samples_are_timed_backwards_from_pack_time() {
    let plan = plan_pack_samples(1000, 5, 4, 990, 1000);
    let ts: Vec<i64> = plan.iter().map(|s| s.ts).collect();
    assert_eq!(ts, vec![985, 990, 995, 1000]);
    let idx: Vec<usize> = plan.iter().map(|s| s.index).collect();
    assert_eq!(idx, vec![0, 1, 2, 3]);
    let off: Vec<Option<isize>> = plan.iter().map(|s| s.offset).collect();
    assert_eq!(off, vec![None, Some(0), Some(5), None]);
}

#[test]
fn empty_pack_has_no_samples() {
    assert!(plan_pack_samples(1000, 5, 0, 0, 2000).is_empty());
}

#[test]
fn pack_timing_check_rejects_overflowing_packs() {
    assert!(check_pack_timing(1_000, 5, 4, 0, 2_000));
    assert!(check_pack_timing(0, 5, 0, 0, 10));
    assert!(!check_pack_timing(i64::MIN + 10, 5, 4, i64::MIN, 0));
    assert!(!check_pack_timing(0, i64::MAX, 3, 0, 10));
    // a reading inside the window whose offset does not fit in isize
    assert!(!check_pack_timing(0, 1, 1, i64::MIN, 10));
    assert!(check_pack_timing(0, 1, 1, i64::MIN + 1, 10));
    assert!(check_pack_timing(i64::MAX, 1, 1, i64::MIN, i64::MAX));
}

#[test]
fn pack_time_is_read_from_its_timestamp() {
    assert_eq!(read_pack_time("2024-03-01T00:00:00"), Ok(1_709_251_200));
    assert_eq!(read_pack_time("1970-01-01T00:00:10"), Ok(10));
    assert_eq!(read_pack_time("2024-03-01 00:00:00"), Err("Error parsing Date".to_string()));
}
