use telemetry_scheduler::schedules::consumption_gaps::{plan_gap_spreads, GapSpread, HourCheck};

fn hours(pattern: &str) -> Vec<HourCheck> {
    // 'v': valid hour, 'x': hour without a valid measure, 'z': valid hour that joins a gap
    pattern
        .chars()
        .map(|c| match c {
            'v' => HourCheck { valid: true, joins_gap: false },
            'x' => HourCheck { valid: false, joins_gap: false },
            'z' => HourCheck { valid: true, joins_gap: true },
            _ => panic!("bad pattern"),
        })
        .collect()
}

fn spread(before: usize, start: usize, end: usize) -> GapSpread {
    GapSpread { before, start, end }
}

#[test]
fn gaps_between_valid_hours_are_spread() {
    assert_eq!(plan_gap_spreads(&hours("vxxv")), vec![spread(0, 1, 3)]);
    assert_eq!(plan_gap_spreads(&hours("vxvxxxv")), vec![spread(0, 1, 2), spread(2, 3, 6)]);
}

#[test]
fn gaps_at_the_edges_of_the_day_are_left_alone() {
    assert_eq!(plan_gap_spreads(&hours("xxvv")), vec![]);
    assert_eq!(plan_gap_spreads(&hours("vvxx")), vec![]);
    assert_eq!(plan_gap_spreads(&hours("xvxvx")), vec![spread(1, 2, 3)]);
    assert_eq!(plan_gap_spreads(&hours("")), vec![]);
    assert_eq!(plan_gap_spreads(&hours("vvvv")), vec![]);
}

#[test]
fn zero_hours_join_an_open_gap_only() {
    // a valid hour that measured nothing is part of the gap around it
    assert_eq!(plan_gap_spreads(&hours("vxzxv")), vec![spread(0, 1, 4)]);
    assert_eq!(plan_gap_spreads(&hours("vxzzv")), vec![spread(0, 1, 4)]);
    // but opens none by itself
    assert_eq!(plan_gap_spreads(&hours("vzzv")), vec![]);
    assert_eq!(plan_gap_spreads(&hours("vzxv")), vec![spread(1, 2, 3)]);
}

#[test]
fn every_bracketed_invalid_hour_is_covered() {
    let h = hours("vxzvxxzzvx");
    let plan = plan_gap_spreads(&h);
    assert_eq!(plan, vec![spread(0, 1, 3), spread(3, 4, 8)]);
    for p in [1usize, 4, 5] {
        assert!(plan.iter().any(|s| s.start <= p && p < s.end));
    }
    // the trailing hour has no valid hour after it
    assert!(!plan.iter().any(|s| s.start <= 9 && 9 < s.end));
}
