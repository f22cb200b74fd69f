use chrono::{Datelike, NaiveDate};
use telemetry_scheduler::models::database_models::clients::Clients;
use telemetry_scheduler::models::database_models::units::Units;
use telemetry_scheduler::models::decimal::{optional_decimal_eq, DecimalValue};
use telemetry_scheduler::models::external_models::client::ClientInfo;
use telemetry_scheduler::models::external_models::device::EnergyDevice;
use telemetry_scheduler::models::external_models::unit::UnitInfo;
use telemetry_scheduler::schedules::devices::check_date;
use telemetry_scheduler::schedules::devices_l1_totalization::verify_insert_update_asset;
use telemetry_scheduler::schedules::energy::verify_insert_update_electric_circuits;
use telemetry_scheduler::schedules::energy_efficiency::verify_insert_update_machine;
use telemetry_scheduler::schedules::scheduler::{verify_insert_client, verify_insert_update_units, ClientStep};
use telemetry_scheduler::schedules::upsert::UpsertStep;

#[test]
fn asset_lookup_error_is_reported() {
    match verify_insert_update_asset(1, 2, "DAC1", "Asset", 3, Err("db down".to_string())) {
        UpsertStep::Failed(m) => assert_eq!(m, "Error to check Asset, db down"),
        _ => panic!("expected failure"),
    }
}

#[test]
fn asset_found_current_or_outdated() {
    let row = (10, "Asset".to_string(), "DAC1".to_string(), 3);
    assert!(matches!(
        verify_insert_update_asset(1, 2, "DAC1", "Asset", 3, Ok(Some(row.clone()))),
        UpsertStep::Found { id: 10, needs_update: false }
    ));
    assert!(matches!(
        verify_insert_update_asset(1, 2, "DAC2", "Asset", 3, Ok(Some(row.clone()))),
        UpsertStep::Found { id: 10, needs_update: true }
    ));
    assert!(matches!(
        verify_insert_update_asset(1, 2, "DAC1", "Asset", 4, Ok(Some(row))),
        UpsertStep::Found { id: 10, needs_update: true }
    ));
}

#[test]
fn asset_missing_is_inserted_then_current() {
    let a = match verify_insert_update_asset(1, 2, "DAC1", "Asset", 3, Ok(None)) {
        UpsertStep::Insert(a) => a,
        _ => panic!("expected insert"),
    };
    assert_eq!((a.id, a.unit_id, a.reference_id, a.machine_reference_id), (None, 1, 2, 3));
    assert_eq!(a.asset_name, "Asset");
    assert_eq!(a.device_code, "DAC1");
    let row = (7, a.asset_name.clone(), a.device_code.clone(), a.machine_reference_id);
    assert!(matches!(
        verify_insert_update_asset(1, 2, "DAC1", "Asset", 3, Ok(Some(row))),
        UpsertStep::Found { id: 7, needs_update: false }
    ));
}

#[test]
fn machine_automation_code_rules() {
    // no stored code stands for an empty one
    assert!(matches!(
        verify_insert_update_machine(1, 5, "M", "", Ok(Some((9, "M".to_string(), None)))),
        UpsertStep::Found { id: 9, needs_update: false }
    ));
    assert!(matches!(
        verify_insert_update_machine(1, 5, "M", "DAM1", Ok(Some((9, "M".to_string(), None)))),
        UpsertStep::Found { id: 9, needs_update: true }
    ));
    assert!(matches!(
        verify_insert_update_machine(1, 5, "M", "DAM1", Ok(Some((9, "M".to_string(), Some("DAM1".to_string()))))),
        UpsertStep::Found { id: 9, needs_update: false }
    ));
    match verify_insert_update_machine(1, 5, "M", "", Ok(None)) {
        UpsertStep::Insert(m) => {
            assert_eq!(m.device_code_autom, None);
            assert_eq!((m.reference_id, m.unit_id), (5, 1));
        }
        _ => panic!("expected insert"),
    }
    match verify_insert_update_machine(1, 5, "M", "DAM1", Ok(None)) {
        UpsertStep::Insert(m) => assert_eq!(m.device_code_autom, Some("DAM1".to_string())),
        _ => panic!("expected insert"),
    }
    match verify_insert_update_machine(1, 5, "M", "", Err("x".to_string())) {
        UpsertStep::Failed(m) => assert_eq!(m, "Erro ao verificar Máquina, x"),
        _ => panic!("expected failure"),
    }
}

fn energy_device(name: &str) -> EnergyDevice {
    EnergyDevice {
        device_code: "DRI1".to_string(),
        serial: None,
        manufacturer: "X".to_string(),
        model: None,
        electric_circuit_id: 42,
        electric_circuit_name: name.to_string(),
        formulas: None,
        dri_interval: 60,
    }
}

#[test]
fn electric_circuit_rules() {
    let d = energy_device("Main");
    assert!(matches!(
        verify_insert_update_electric_circuits(1, &d, Ok(Some((3, "Main".to_string())))),
        UpsertStep::Found { id: 3, needs_update: false }
    ));
    assert!(matches!(
        verify_insert_update_electric_circuits(1, &d, Ok(Some((3, "Old".to_string())))),
        UpsertStep::Found { id: 3, needs_update: true }
    ));
    match verify_insert_update_electric_circuits(1, &d, Ok(None)) {
        UpsertStep::Insert(c) => {
            assert_eq!((c.id, c.unit_id, c.reference_id), (None, 1, 42));
            assert_eq!(c.name, "Main");
        }
        _ => panic!("expected insert"),
    }
    match verify_insert_update_electric_circuits(1, &d, Err("e".to_string())) {
        UpsertStep::Failed(m) => assert_eq!(m, "Erro ao verificar Circuito elétrico, e"),
        _ => panic!("expected failure"),
    }
}

#[test]
fn client_rules() {
    let info = ClientInfo { client_id: 1, client_name: "ACME".to_string() };
    let stored = Clients { id: Some(8), client_name: "ACME".to_string(), amount_minutes_check_offline: Some(30) };
    assert!(matches!(
        verify_insert_client(&info, Ok(Some(stored))),
        ClientStep::Found { id: 8, amount_minutes_check_offline: Some(30) }
    ));
    match verify_insert_client(&info, Ok(None)) {
        ClientStep::Insert(c) => {
            assert_eq!(c.client_name, "ACME");
            assert_eq!((c.id, c.amount_minutes_check_offline), (None, None));
        }
        _ => panic!("expected insert"),
    }
    match verify_insert_client(&info, Err("boom".to_string())) {
        ClientStep::Failed(m) => assert_eq!(m, "Erro ao verificar cliente, boom"),
        _ => panic!("expected failure"),
    }
}

fn dec(m: i128, s: u32) -> DecimalValue {
    DecimalValue::new(m, s).unwrap()
}

#[test]
fn decimals_compare_by_value() {
    assert!(optional_decimal_eq(&Some(dec(10, 1)), &Some(dec(100, 2))));
    assert!(!optional_decimal_eq(&Some(dec(10, 1)), &Some(dec(101, 2))));
    assert!(optional_decimal_eq(&None, &None));
    assert!(optional_decimal_eq(&Some(DecimalValue::from_parts(0, 3, true).unwrap()), &Some(dec(0, 0))));
    assert!(optional_decimal_eq(&Some(dec(-25, 1)), &Some(dec(-2_500_000_000_000_000_000_000_000_000, 27))));
    assert!(!optional_decimal_eq(&Some(dec(1, 0)), &Some(dec(0xFFFF_FFFF_FFFF_FFFF_FFFF_FFFF, 28))));
    assert!(!optional_decimal_eq(&Some(dec(0xFFFF_FFFF_FFFF_FFFF_FFFF_FFFF, 0)), &Some(dec(1, 28))));
    assert!(!optional_decimal_eq(&Some(dec(0, 0)), &None));
    assert!(DecimalValue::new(0, 29).is_none());
    assert!(DecimalValue::new(1i128 << 96, 0).is_none());
    assert!(DecimalValue::new((1i128 << 96) - 1, 28).is_some());
}

fn unit_info() -> UnitInfo {
    UnitInfo {
        unit_id: 77,
        unit_name: "Store".to_string(),
        client_name: "ACME".to_string(),
        city_name: Some("Rio".to_string()),
        state_name: None,
        tarifa_kwh: Some(dec(75, 2)),
        constructed_area: None,
        capacity_power: Some(dec(12, 0)),
        production_timestamp: None,
    }
}

fn stored_unit(tarifa: DecimalValue) -> Units {
    Units {
        id: Some(4),
        client_id: 1,
        unit_name: "Store".to_string(),
        reference_id: 77,
        city_name: Some("Rio".to_string()),
        state_name: None,
        tarifa_kwh: Some(tarifa),
        constructed_area: None,
        capacity_power: Some(dec(1200, 2)),
    }
}

#[test]
fn unit_rules() {
    let info = unit_info();
    assert!(matches!(
        verify_insert_update_units(1, &info, Ok(Some(stored_unit(dec(750, 3))))),
        UpsertStep::Found { id: 4, needs_update: false }
    ));
    assert!(matches!(
        verify_insert_update_units(1, &info, Ok(Some(stored_unit(dec(76, 2))))),
        UpsertStep::Found { id: 4, needs_update: true }
    ));
    match verify_insert_update_units(1, &info, Ok(None)) {
        UpsertStep::Insert(u) => {
            assert_eq!((u.id, u.client_id, u.reference_id), (None, 1, 77));
            assert_eq!(u.unit_name, "Store");
            assert_eq!(u.city_name, Some("Rio".to_string()));
        }
        _ => panic!("expected insert"),
    }
    match verify_insert_update_units(1, &info, Err("db".to_string())) {
        UpsertStep::Failed(m) => assert_eq!(m, "Erro ao verificar cliente, db"),
        _ => panic!("expected failure"),
    }
}

#[test]
fn check_date_sixty_day_rule() {
    let today = NaiveDate::from_ymd_opt(2024, 3, 1).unwrap().num_days_from_ce();
    assert_eq!(check_date("2024-03-01", today), Ok(false));
    assert_eq!(check_date("2024-01-01", today), Ok(false)); // exactly 60 days (leap year)
    assert_eq!(check_date("2023-12-31", today), Ok(true));
    assert_eq!(check_date("2024-05-01", today), Ok(true));
    assert_eq!(check_date("2024-04-30", today), Ok(false));
    assert!(check_date("01/03/2024", today).is_err());
}
