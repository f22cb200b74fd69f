use telemetry_scheduler::telemetry_payloads::dri_telemetry::register_reading;
use telemetry_scheduler::telemetry_payloads::dac_telemetry::{check_dac_pack_lengths, dac_lcmp, pick_sensor, T_sensors};
use telemetry_scheduler::telemetry_payloads::dut_l1::temp_difference::combine_conditions;
use telemetry_scheduler::telemetry_payloads::dut_telemetry::{check_dut_lengths, dut_co2, dut_mode, dut_pack_length, dut_tvoc};
use telemetry_scheduler::telemetry_payloads::telemetry_formats::always5;

#[test]
fn default_dut_sampling_time() {
    assert_eq!(always5(), 5);
}

#[test]
fn sensor_assignment() {
    assert_eq!(pick_sensor(&Some(T_sensors::T0), Some(1), Some(2), Some(3)), Some(1));
    assert_eq!(pick_sensor(&Some(T_sensors::T2), Some(1), Some(2), Some(3)), Some(3));
    assert_eq!(pick_sensor::<i32>(&None, Some(1), Some(2), Some(3)), None);
}

#[test]
fn compressor_state_with_automation() {
    assert_eq!(dac_lcmp(true, &Some("Disabled".to_string()), Some(true)), Some(false));
    assert_eq!(dac_lcmp(true, &Some("Enabled".to_string()), Some(true)), Some(true));
    assert_eq!(dac_lcmp(true, &Some("Other".to_string()), Some(true)), None);
    assert_eq!(dac_lcmp(true, &None, Some(true)), None);
    assert_eq!(dac_lcmp(false, &Some("Disabled".to_string()), Some(true)), Some(true));
}

#[test]
fn dac_pack_lengths() {
    let ts = "2024-01-01T00:00:00".to_string();
    assert_eq!(check_dac_pack_lengths(&ts, 3, 3, 3, 3, 3, 3), Ok(()));
    assert_eq!(check_dac_pack_lengths(&ts, 3, 2, 1, 3, 3, 3), Err("Incompatible length of T0 at 2024-01-01T00:00:00".to_string()));
    assert_eq!(check_dac_pack_lengths(&ts, 3, 3, 3, 3, 3, 0), Err("Incompatible length of P1 at 2024-01-01T00:00:00".to_string()));
}

#[test]
fn dut_pack_length_and_checks() {
    assert_eq!(dut_pack_length(Some(4), Some(5), Some(6)), 4);
    assert_eq!(dut_pack_length(None, Some(5), Some(6)), 5);
    assert_eq!(dut_pack_length(None, None, Some(6)), 6);
    assert_eq!(dut_pack_length(None, None, None), 0);
    assert_eq!(check_dut_lengths(4, Some(4), None, Some(4), None, Some(4)), Ok(()));
    assert_eq!(check_dut_lengths(4, None, None, None, Some(3), None), Err("Incompatible length".to_string()));
}

#[test]
fn dut_sensor_markers() {
    assert_eq!(dut_co2(Some(-99)), None);
    assert_eq!(dut_co2(Some(-100)), Some(-100));
    assert_eq!(dut_co2(Some(400)), Some(400));
    assert_eq!(dut_tvoc(Some(-99)), None);
    assert_eq!(dut_tvoc(Some(-100)), None);
    assert_eq!(dut_tvoc(Some(-98)), Some(-98));
    assert_eq!(dut_mode(&Some("AUTO".to_string())), Some("Auto".to_string()));
    assert_eq!(dut_mode(&Some("MANUAL".to_string())), Some("MANUAL".to_string()));
    assert_eq!(dut_mode(&None), None);
}

#[test]
fn tri_state_join() {
    assert_eq!(combine_conditions(&vec![]), None);
    assert_eq!(combine_conditions(&vec![None, Some(false), None]), Some(false));
    assert_eq!(combine_conditions(&vec![Some(false), None, Some(true)]), Some(true));
    assert_eq!(combine_conditions(&vec![Some(true), Some(false)]), Some(true));
    assert_eq!(combine_conditions(&vec![None, None]), None);
}

#[test]
fn unreadable_dri_registers_are_dropped() {
    assert_eq!(register_reading(Some(-1)), None);
    assert_eq!(register_reading(None), None);
    assert_eq!(register_reading(Some(0)), Some(0));
    assert_eq!(register_reading(Some(-2)), Some(-2));
    assert_eq!(register_reading(Some(245)), Some(245));
}
