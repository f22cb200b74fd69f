use telemetry_scheduler::telemetry_payloads::dac_l1::dac_l1_calculator::{
    fallback_l1, select_l1_calculator, should_update_l1_calc, DacL1CalculatorKind, DacL1Settings,
    DacVirtualCalculator,
};

fn settings(is_vrf: bool, simulate_l1: bool, fancoil: Option<bool>, p0: bool, fluid: Option<&str>) -> DacL1Settings {
    DacL1Settings {
        is_vrf,
        simulate_l1,
        calculate_l1_fancoil: fancoil,
        p0_psuc: p0,
        p1_psuc: false,
        fluid: fluid.map(|s| s.to_string()),
    }
}

#[test]
fn calculator_kind_follows_configuration() {
    assert!(matches!(
        select_l1_calculator(&settings(true, false, None, true, None)),
        DacL1CalculatorKind::Virtual { with_pressure: true }
    ));
    assert!(matches!(
        select_l1_calculator(&settings(false, true, Some(true), false, None)),
        DacL1CalculatorKind::Virtual { with_pressure: false }
    ));
    assert!(matches!(
        select_l1_calculator(&settings(false, false, Some(true), false, None)),
        DacL1CalculatorKind::Fancoil
    ));
    assert!(matches!(
        select_l1_calculator(&settings(false, false, Some(false), false, None)),
        DacL1CalculatorKind::Physical
    ));
    assert!(matches!(select_l1_calculator(&settings(false, false, None, true, None)), DacL1CalculatorKind::Physical));
}

#[test]
fn update_needed_only_on_relevant_change() {
    let a = settings(true, false, None, true, Some("R410A"));
    assert!(should_update_l1_calc(None, &a));
    assert!(!should_update_l1_calc(Some(&a), &settings(true, false, None, true, Some("R410A"))));
    // fluid change
    assert!(should_update_l1_calc(Some(&a), &settings(true, false, None, true, Some("R22"))));
    // fancoil change does not matter on VRF
    assert!(!should_update_l1_calc(Some(&a), &settings(true, false, Some(true), true, Some("R410A"))));
    // pressure change matters on VRF
    assert!(should_update_l1_calc(Some(&a), &settings(true, false, None, false, Some("R410A"))));
    let b = settings(false, false, None, false, None);
    assert!(should_update_l1_calc(Some(&b), &settings(false, false, Some(true), false, None)));
    assert!(should_update_l1_calc(Some(&b), &settings(false, true, None, false, None)));
}

#[test]
fn unchanged_kind_exception_simulated_pressure_change() {
    // the one case where no rebuild is asked for although the calculator kind changes
    let last = settings(false, true, None, false, None);
    let new = settings(false, true, None, true, None);
    assert!(!should_update_l1_calc(Some(&last), &new));
    assert!(matches!(select_l1_calculator(&last), DacL1CalculatorKind::Virtual { with_pressure: false }));
    assert!(matches!(select_l1_calculator(&new), DacL1CalculatorKind::Virtual { with_pressure: true }));
}

#[test]
fn virtual_calculator_votes_on_majority() {
    let mut v = DacVirtualCalculator::new(());
    assert!(v.begin_step(100).is_ok());
    assert_eq!(v.finish_step(Some(true)), Some(true));
    assert!(v.begin_step(101).is_ok());
    assert_eq!(v.finish_step(Some(false)), Some(false)); // 1 on of 2: not more than half
    assert!(v.begin_step(102).is_ok());
    assert_eq!(v.finish_step(Some(true)), Some(true)); // 2 of 3
    assert!(v.begin_step(103).is_ok());
    assert_eq!(v.finish_step(None), Some(true)); // still 2 of 3
}

#[test]
fn virtual_calculator_refuses_time_going_back() {
    let mut v = DacVirtualCalculator::new(());
    assert!(v.begin_step(100).is_ok());
    v.finish_step(Some(true));
    assert_eq!(v.begin_step(100), Err("last_ts >= ts".to_string()));
    assert_eq!(v.begin_step(50), Err("last_ts >= ts".to_string()));
    assert!(v.begin_step(101).is_ok());
}

#[test]
fn virtual_calculator_repeats_last_reading_over_short_gaps() {
    let mut v = DacVirtualCalculator::new(());
    v.begin_step(0).unwrap();
    assert_eq!(v.finish_step(Some(true)), Some(true));
    // 10 missing seconds are filled with the last reading (on)
    v.begin_step(11).unwrap();
    assert_eq!(v.finish_step(Some(false)), Some(true)); // 11 on, 1 off
}

#[test]
fn long_gap_resets_the_vote() {
    let mut v = DacVirtualCalculator::new(());
    for t in 0..30 {
        v.begin_step(t).unwrap();
        v.finish_step(Some(true));
    }
    v.begin_step(100).unwrap();
    assert_eq!(v.finish_step(Some(false)), Some(false));
    v.begin_step(200).unwrap();
    assert_eq!(v.finish_step(None), None);
}

#[test]
fn fallback_takes_first_reading() {
    assert_eq!(fallback_l1(&vec![]), Err("Não há checker de l1".to_string()));
    assert_eq!(fallback_l1(&vec![Ok(Some(true)), Ok(Some(false))]), Ok(Some(true)));
    assert_eq!(fallback_l1(&vec![Err("x".to_string()), Ok(None), Ok(Some(false))]), Ok(Some(false)));
    assert_eq!(fallback_l1(&vec![Ok(None), Err("y".to_string())]), Ok(None));
}
